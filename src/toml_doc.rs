//! The parts of `toml_edit` that the manifest logic relies on, with the
//! model of a document that their contracts speak of.
use vstd::prelude::*;

verus! {

#[verifier::external_type_specification]
#[verifier::external_body]
pub struct ExDocumentMut(toml_edit::DocumentMut);

#[verifier::external_type_specification]
#[verifier::external_body]
pub struct ExItem(toml_edit::Item);

#[verifier::external_type_specification]
#[verifier::external_body]
pub struct ExTomlError(toml_edit::TomlError);

/// What a node of a TOML document is, as far as the manifest logic reads it.
pub enum Shape {
    /// A table or an inline table.
    Table,
    /// A string value.
    Text(Seq<char>),
    /// Any other value: integer, array, array of tables, ...
    Other,
}

/// A document tree, keyed by dotted path relative to a node; the empty path
/// is the node itself.
pub type Tree = Map<Seq<Seq<char>>, Shape>;

/// The nodes that a parsed document holds.
pub uninterp spec fn document_tree(d: toml_edit::DocumentMut) -> Tree;

/// The nodes below (and including) an item.
pub uninterp spec fn item_tree(i: toml_edit::Item) -> Tree;

/// The keys of a table or an inline table, in the order they print in.
pub uninterp spec fn item_keys(i: toml_edit::Item) -> Seq<Seq<char>>;

/// The entry under the key `k` of a table or an inline table, if any.
pub uninterp spec fn item_child(i: toml_edit::Item, k: Seq<char>) -> Option<toml_edit::Item>;

/// The text that a document prints as.
pub uninterp spec fn document_text(d: toml_edit::DocumentMut) -> Seq<char>;

/// The message that a parse error prints as.
pub uninterp spec fn toml_error_message(e: toml_edit::TomlError) -> Seq<char>;

/// The tree that parsing a text gives, or `None` where the text is not TOML.
pub uninterp spec fn parsed_tree(text: Seq<char>) -> Option<Tree>;

/// The part of `t` below the key `k`, rebased so that `k` is the empty path.
pub open spec fn subtree(t: Tree, k: Seq<char>) -> Tree {
    Map::new(|q: Seq<Seq<char>>| t.contains_key(seq![k] + q), |q: Seq<Seq<char>>| t[seq![k] + q])
}

/// `t` with the node at `path` replaced by the string `v`, and whatever stood
/// below it removed.
pub open spec fn with_text(t: Tree, path: Seq<Seq<char>>, v: Seq<char>) -> Tree {
    Map::new(
        |q: Seq<Seq<char>>| q == path || (t.contains_key(q) && !(path.is_prefix_of(q))),
        |q: Seq<Seq<char>>| if q == path { Shape::Text(v) } else { t[q] },
    )
}

/// A document with nothing but its root table.
pub open spec fn empty_tree() -> Tree {
    Map::empty().insert(seq![], Shape::Table)
}

/// `t` with the part below the key `k` replaced by `s`.
pub open spec fn graft(t: Tree, k: Seq<char>, s: Tree) -> Tree {
    Map::new(
        |q: Seq<Seq<char>>|
            if q.len() > 0 && q[0] == k {
                s.contains_key(q.drop_first())
            } else {
                t.contains_key(q)
            },
        |q: Seq<Seq<char>>| if q.len() > 0 && q[0] == k { s[q.drop_first()] } else { t[q] },
    )
}

/// Relies on `DocumentMut`'s `FromStr`: the parse depends on the text alone,
/// and an empty text is an empty document, a root table and nothing else.
#[verifier::external_body]
pub(crate) fn parse_document(text: &str) -> (r: Result<toml_edit::DocumentMut, toml_edit::TomlError>)
    ensures
        r is Ok <==> parsed_tree(text@) is Some,
        r is Ok ==> Some(document_tree(r->Ok_0)) == parsed_tree(text@),
        text@.len() == 0 ==> r is Ok && document_tree(r->Ok_0) == empty_tree(),
{
    text.parse::<toml_edit::DocumentMut>()
}

/// Relies on `Item::get` with a string key: the entry under `key` when the item
/// is a table or an inline table and holds one, `None` otherwise.
#[verifier::external_body]
pub(crate) fn item_get<'a>(i: &'a toml_edit::Item, key: &str) -> (r: Option<&'a toml_edit::Item>)
    ensures
        r is Some <==> item_tree(*i).contains_key(seq![key@]),
        r is Some ==> item_tree(*r->0) == subtree(item_tree(*i), key@),
{
    i.get(key)
}

/// Relies on `DocumentMut::as_item_mut`: the root item is the document's
/// table, and changing it changes the document.
#[verifier::external_body]
pub(crate) fn root_item_mut(d: &mut toml_edit::DocumentMut) -> (r: &mut toml_edit::Item)
    ensures
        item_tree(*r) == document_tree(*old(d)),
        document_tree(*final(d)) == item_tree(*final(r)),
{
    d.as_item_mut()
}

/// Relies on `Item::get_mut` with a string key. On a table or an inline table
/// that holds the key it returns that entry without touching the table (it
/// would add an empty entry for a missing key, which `requires` leaves out).
#[verifier::external_body]
pub(crate) fn item_get_mut<'a>(i: &'a mut toml_edit::Item, key: &str) -> (r: Option<&'a mut toml_edit::Item>)
    requires
        item_tree(*old(i)).contains_key(seq![key@]),
    ensures
        r is Some,
        r is Some ==> item_tree(*r->0) == subtree(item_tree(*old(i)), key@),
        r is Some ==> item_tree(*final(i)) == graft(item_tree(*old(i)), key@, item_tree(*final(r->0))),
        r is Some ==> item_child(*final(i), key@) == Some(*final(r->0)),
        r is Some ==> forall|k: Seq<char>|
            k != key@ ==> #[trigger] item_child(*final(i), k) == item_child(*old(i), k),
        r is Some && item_tree(*final(r->0)).contains_key(seq![]) ==> item_keys(*final(i))
            == item_keys(*old(i)),
{
    i.get_mut(key)
}

/// Relies on `Item::as_value_mut`, `Value::decor` and `Value::decor_mut`: a
/// string value is replaced by the string `text`, with the whitespace and
/// comments around it kept.
#[verifier::external_body]
pub(crate) fn item_set_text(i: &mut toml_edit::Item, text: &str)
    requires
        item_tree(*old(i))[seq![]] is Text,
    ensures
        item_tree(*final(i)) == with_text(item_tree(*old(i)), seq![], text@),
{
    if let Some(value) = i.as_value_mut() {
        let decor = value.decor().clone();
        *value = toml_edit::Value::from(text);
        *value.decor_mut() = decor;
    }
}

/// Relies on `Item::as_str`: the text of a string value, `None` for any
/// other item.
#[verifier::external_body]
pub(crate) fn item_as_str(i: &toml_edit::Item) -> (r: Option<&str>)
    ensures
        r is Some <==> item_tree(*i)[seq![]] is Text,
        r is Some ==> item_tree(*i)[seq![]] == Shape::Text(r->0@),
{
    i.as_str()
}

/// Relies on `Item::is_table_like`: whether the item is a table or an inline
/// table.
#[verifier::external_body]
pub(crate) fn item_is_table_like(i: &toml_edit::Item) -> (r: bool)
    ensures
        r <==> item_tree(*i)[seq![]] == Shape::Table,
{
    i.is_table_like()
}

/// Relies on `Display` for `TomlError`: the parser's own description of
/// where and why the text is not TOML.
#[verifier::external_body]
pub(crate) fn toml_error_text(e: &toml_edit::TomlError) -> (r: String)
    ensures
        r@ == toml_error_message(*e),
{
    e.to_string()
}

/// Relies on `Display` for `DocumentMut`: the document printed as TOML, which
/// parses back to the same nodes.
#[verifier::external_body]
pub(crate) fn print_document(d: &toml_edit::DocumentMut) -> (r: String)
    ensures
        r@ == document_text(*d),
        parsed_tree(r@) == Some(document_tree(*d)),
{
    d.to_string()
}

} // verus!
