//! Where the version of a Cargo manifest lives, and how it is changed.
use crate::toml_doc::{
    document_text, document_tree, graft, item_as_str, item_get, item_get_mut, item_is_table_like, item_child, item_keys,
    item_set_text, item_tree, parse_document, parsed_tree, print_document, root_item_mut, subtree,
    toml_error_message, toml_error_text, with_text, Shape, Tree,
};
use vstd::prelude::*;

verus! {

/// Why the version of a Cargo manifest could not be set. `workspace` tells
/// whether the `[workspace.package]` placement was the one in play.
#[derive(Debug)]
pub enum CargoTomlError {
    InvalidPackageFieldDataType { workspace: bool },
    InvalidPackageVersionFieldDataType { workspace: bool },
    InvalidWorkspaceFieldDataType,
    MissingPackageField { workspace: bool },
    MissingPackageVersionField { workspace: bool },
    ParseToml(Box<toml_edit::TomlError>),
}

/// The dotted field path that an error names, quoted as in its message.
pub open spec fn error_field(e: CargoTomlError) -> Seq<char> {
    match e {
        CargoTomlError::InvalidPackageFieldDataType { workspace } => if workspace {
            "\"workspace.package\""@
        } else {
            "\"package\""@
        },
        CargoTomlError::MissingPackageField { workspace } => if workspace {
            "\"workspace.package\""@
        } else {
            "\"package\""@
        },
        CargoTomlError::InvalidPackageVersionFieldDataType { workspace } => if workspace {
            "\"workspace.package.version\""@
        } else {
            "\"package.version\""@
        },
        CargoTomlError::MissingPackageVersionField { workspace } => if workspace {
            "\"workspace.package.version\""@
        } else {
            "\"package.version\""@
        },
        CargoTomlError::InvalidWorkspaceFieldDataType => "\"workspace\""@,
        CargoTomlError::ParseToml(_) => Seq::empty(),
    }
}

/// The message of an error: for a parse error, the parser's own.
pub open spec fn error_message(e: CargoTomlError) -> Seq<char> {
    match e {
        CargoTomlError::InvalidPackageFieldDataType { workspace } => if workspace {
            "\"workspace.package\" field is not a table"@
        } else {
            "\"package\" field is not a table"@
        },
        CargoTomlError::MissingPackageField { workspace } => if workspace {
            "\"workspace.package\" field not found"@
        } else {
            "\"package\" field not found"@
        },
        CargoTomlError::InvalidPackageVersionFieldDataType { workspace } => if workspace {
            "\"workspace.package.version\" field is not a string"@
        } else {
            "\"package.version\" field is not a string"@
        },
        CargoTomlError::MissingPackageVersionField { workspace } => if workspace {
            "\"workspace.package.version\" field not found"@
        } else {
            "\"package.version\" field not found"@
        },
        CargoTomlError::InvalidWorkspaceFieldDataType => "\"workspace\" is not a table"@,
        CargoTomlError::ParseToml(error) => toml_error_message(*error),
    }
}

impl CargoTomlError {
    /// The message that describes the error to a user.
    pub fn message(&self) -> (r: String)
        ensures
            r@ == error_message(*self),
    {
        match self {
            CargoTomlError::ParseToml(error) => toml_error_text(error),
            CargoTomlError::InvalidPackageVersionFieldDataType { workspace } => if *workspace {
                "\"workspace.package.version\" field is not a string".to_owned()
            } else {
                "\"package.version\" field is not a string".to_owned()
            },
            CargoTomlError::InvalidPackageFieldDataType { workspace } => if *workspace {
                "\"workspace.package\" field is not a table".to_owned()
            } else {
                "\"package\" field is not a table".to_owned()
            },
            CargoTomlError::MissingPackageVersionField { workspace } => if *workspace {
                "\"workspace.package.version\" field not found".to_owned()
            } else {
                "\"package.version\" field not found".to_owned()
            },
            CargoTomlError::MissingPackageField { workspace } => if *workspace {
                "\"workspace.package\" field not found".to_owned()
            } else {
                "\"package\" field not found".to_owned()
            },
            CargoTomlError::InvalidWorkspaceFieldDataType => "\"workspace\" is not a table".to_owned(),
        }
    }
}

/// Every error but a parse error opens its message with the quoted dotted
/// path of the field that failed.
pub proof fn lemma_message_names_field(e: CargoTomlError)
    requires
        !(e is ParseToml),
    ensures
        error_field(e).len() > 0,
        error_field(e).is_prefix_of(error_message(e)),
{
    reveal_strlit("\"workspace.package\"");
    reveal_strlit("\"package\"");
    reveal_strlit("\"workspace.package.version\"");
    reveal_strlit("\"package.version\"");
    reveal_strlit("\"workspace\"");
    reveal_strlit("\"workspace.package\" field is not a table");
    reveal_strlit("\"package\" field is not a table");
    reveal_strlit("\"workspace.package\" field not found");
    reveal_strlit("\"package\" field not found");
    reveal_strlit("\"workspace.package.version\" field is not a string");
    reveal_strlit("\"package.version\" field is not a string");
    reveal_strlit("\"workspace.package.version\" field not found");
    reveal_strlit("\"package.version\" field not found");
    reveal_strlit("\"workspace\" is not a table");
}

/// The path of the package table: `workspace.package` or `package`.
pub open spec fn package_path(workspace: bool) -> Seq<Seq<char>> {
    if workspace {
        seq!["workspace"@, "package"@]
    } else {
        seq!["package"@]
    }
}

/// The path of the version field under the package table.
pub open spec fn version_path(workspace: bool) -> Seq<Seq<char>> {
    package_path(workspace).push("version"@)
}

/// What setting the version `v` in the package table at `package_path(workspace)`
/// of `t` gives: the path to rewrite, `None` where the version is already `v`,
/// or the error.
pub open spec fn package_edit(t: Tree, workspace: bool, v: Seq<char>) -> Result<
    Option<Seq<Seq<char>>>,
    CargoTomlError,
> {
    let p = version_path(workspace);
    if !t.contains_key(p) {
        Err(CargoTomlError::MissingPackageVersionField { workspace })
    } else {
        match t[p] {
            Shape::Text(s) => if s == v {
                Ok(None)
            } else {
                Ok(Some(p))
            },
            _ => Err(CargoTomlError::InvalidPackageVersionFieldDataType { workspace }),
        }
    }
}

/// What setting the version `v` in the document tree `t` gives. A `workspace`
/// entry takes precedence over a `package` entry; each step of the path is
/// checked in turn and the first one that fails names the error.
pub open spec fn version_edit(t: Tree, v: Seq<char>) -> Result<
    Option<Seq<Seq<char>>>,
    CargoTomlError,
> {
    if t.contains_key(seq!["workspace"@]) {
        if t[seq!["workspace"@]] != Shape::Table {
            Err(CargoTomlError::InvalidWorkspaceFieldDataType)
        } else if !t.contains_key(package_path(true)) {
            Err(CargoTomlError::MissingPackageField { workspace: true })
        } else if t[package_path(true)] != Shape::Table {
            Err(CargoTomlError::InvalidPackageFieldDataType { workspace: true })
        } else {
            package_edit(t, true, v)
        }
    } else if t.contains_key(package_path(false)) {
        if t[package_path(false)] != Shape::Table {
            Err(CargoTomlError::InvalidPackageFieldDataType { workspace: false })
        } else {
            package_edit(t, false, v)
        }
    } else {
        Err(CargoTomlError::MissingPackageField { workspace: false })
    }
}

/// Setting a version and then setting the same version again changes nothing
/// the second time: on the tree the first edit gives, the second finds the
/// version already in place.
pub proof fn lemma_set_twice(t: Tree, v: Seq<char>)
    ensures
        version_edit(t, v) matches Ok(Some(p)) ==> version_edit(with_text(t, p, v), v) == Ok::<
            Option<Seq<Seq<char>>>,
            CargoTomlError,
        >(None),
{
    if let Ok(Some(p)) = version_edit(t, v) {
        let t2 = with_text(t, p, v);
        let ws = seq!["workspace"@];
        let w = t.contains_key(ws);
        assert(p == version_path(w));
        assert(!p.is_prefix_of(ws));
        assert(!p.is_prefix_of(package_path(w)));
        assert(!p.is_prefix_of(seq!["package"@]));
        assert(t2.contains_key(ws) == t.contains_key(ws));
        assert(t2.contains_key(p));
        assert(t2[p] == Shape::Text(v));
    }
}

/// A version already in place is kept: the edit is `None`.
pub proof fn lemma_same_version_kept(t: Tree, v: Seq<char>)
    requires
        version_edit(t, v) is Ok,
        t.contains_key(version_path(t.contains_key(seq!["workspace"@]))),
        t[version_path(t.contains_key(seq!["workspace"@]))] == Shape::Text(v),
    ensures
        version_edit(t, v) == Ok::<Option<Seq<Seq<char>>>, CargoTomlError>(None),
{
}

/// An edit rewrites the version field and nothing else: every node that is not
/// at or below the rewritten path stays as it was. Where the document has a
/// `workspace` entry, the rewritten field is `workspace.package.version`, so
/// nothing outside `workspace` changes, the `package` table included.
pub proof fn lemma_edit_is_local(t: Tree, v: Seq<char>, q: Seq<Seq<char>>)
    ensures
        version_edit(t, v) matches Ok(Some(p)) ==> {
            &&& p == version_path(t.contains_key(seq!["workspace"@]))
            &&& !p.is_prefix_of(q) ==> with_text(t, p, v).contains_key(q) == t.contains_key(q)
            &&& !p.is_prefix_of(q) && t.contains_key(q) ==> with_text(t, p, v)[q] == t[q]
        },
        t.contains_key(seq!["workspace"@]) && !(q.len() > 0 && q[0] == "workspace"@) ==> (
        version_edit(t, v) matches Ok(Some(p)) ==> !p.is_prefix_of(q)),
{
    if let Ok(Some(p)) = version_edit(t, v) {
        if t.contains_key(seq!["workspace"@]) && !(q.len() > 0 && q[0] == "workspace"@) {
            assert(p[0] == "workspace"@);
            if p.is_prefix_of(q) {
                assert(q[0] == p[0]);
            }
        }
    }
}

proof fn lemma_graft_with_text_at(
    t: Tree,
    k: Seq<char>,
    p: Seq<Seq<char>>,
    v: Seq<char>,
    q: Seq<Seq<char>>,
)
    ensures
        graft(t, k, with_text(subtree(t, k), p, v)).contains_key(q) == with_text(
            t,
            seq![k] + p,
            v,
        ).contains_key(q),
        graft(t, k, with_text(subtree(t, k), p, v)).contains_key(q) ==> graft(
            t,
            k,
            with_text(subtree(t, k), p, v),
        )[q] == with_text(t, seq![k] + p, v)[q],
{
    let kp = seq![k] + p;
    if q.len() > 0 && q[0] == k {
        let q1 = q.drop_first();
        assert(q =~= seq![k] + q1);
        assert(subtree(t, k).contains_key(q1) == t.contains_key(q));
        assert((q1 == p) == (q == kp)) by {
            if q1 == p {
                assert(q =~= kp);
            }
            if q == kp {
                assert(q1 =~= p);
            }
        }
        assert(p.is_prefix_of(q1) == kp.is_prefix_of(q)) by {
            if p.is_prefix_of(q1) {
                assert forall|j: int| 0 <= j < kp.len() implies kp[j] == q[j] by {
                    if j > 0 {
                        assert(kp[j] == p[j - 1]);
                        assert(q[j] == q1[j - 1]);
                    }
                }
            }
            if kp.is_prefix_of(q) {
                assert forall|j: int| 0 <= j < p.len() implies p[j] == q1[j] by {
                    assert(kp[j + 1] == p[j]);
                    assert(q[j + 1] == q1[j]);
                }
            }
        }
    } else {
        assert(!kp.is_prefix_of(q)) by {
            if kp.is_prefix_of(q) {
                assert(kp[0] == q[0]);
            }
        }
        assert(q != kp) by {
            if q == kp {
                assert(q[0] == kp[0]);
            }
        }
    }
}

/// Editing below the key `k` is editing at the path that starts with `k`.
proof fn lemma_graft_with_text(t: Tree, k: Seq<char>, p: Seq<Seq<char>>, v: Seq<char>)
    ensures
        graft(t, k, with_text(subtree(t, k), p, v)) == with_text(t, seq![k] + p, v),
{
    let l = graft(t, k, with_text(subtree(t, k), p, v));
    let r = with_text(t, seq![k] + p, v);
    assert forall|q: Seq<Seq<char>>| #[trigger] l.contains_key(q) == r.contains_key(q) by {
        lemma_graft_with_text_at(t, k, p, v, q);
    }
    assert forall|q: Seq<Seq<char>>| #[trigger] l.contains_key(q) implies l[q] == r[q] by {
        lemma_graft_with_text_at(t, k, p, v, q);
    }
    assert(l =~= r);
}

/// Sets the version field of the package table `package_table` to `version`,
/// unless it already holds it; returns whether it changed anything.
fn set_package_version(package_table: &mut toml_edit::Item, version: &str, workspace: bool) -> (r:
    Result<bool, CargoTomlError>)
    requires
        item_tree(*old(package_table))[seq![]] == Shape::Table,
    ensures
        ({
            let t = item_tree(*old(package_table));
            let key = seq!["version"@];
            match r {
                Ok(true) => t.contains_key(key) && t[key] is Text && t[key]->Text_0 != version@
                    && item_tree(*final(package_table)) == with_text(t, key, version@)
                    && item_keys(*final(package_table)) == item_keys(*old(package_table))
                    && forall|k: Seq<char>|
                    k != "version"@ ==> #[trigger] item_child(*final(package_table), k)
                        == item_child(*old(package_table), k),
                Ok(false) => t.contains_key(key) && t[key] == Shape::Text(version@)
                    && *final(package_table) == *old(package_table),
                Err(e) => *final(package_table) == *old(package_table) && if !t.contains_key(key) {
                    e == CargoTomlError::MissingPackageVersionField { workspace }
                } else {
                    !(t[key] is Text) && e
                        == CargoTomlError::InvalidPackageVersionFieldDataType { workspace }
                },
            }
        }),
{
    let version_key = match item_get(package_table, "version") {
        Some(item) => item,
        None => return Err(CargoTomlError::MissingPackageVersionField { workspace }),
    };
    let version_key_str = match item_as_str(version_key) {
        Some(s) => s,
        None => return Err(CargoTomlError::InvalidPackageVersionFieldDataType { workspace }),
    };
    let modified = !str_eq(version_key_str, version);
    if modified {
        let version_item = item_get_mut(package_table, "version").unwrap();
        item_set_text(version_item, version);
        proof {
            assert(seq!["version"@] + seq![] =~= seq!["version"@]);
            lemma_graft_with_text(item_tree(*old(package_table)), "version"@, seq![], version@);
        }
    }
    Ok(modified)
}

/// Sets the version of the Cargo manifest `contents` to `version`, keeping
/// the rest of the text as it is. Returns whether the text changed, and the
/// text; where the version already was `version`, the text comes back as it
/// was given.
pub fn set_cargo_toml_version(contents: String, version: &str) -> (r: Result<
    (bool, String),
    CargoTomlError,
>)
    ensures
        contents@.len() == 0 ==> r == Err::<(bool, String), CargoTomlError>(
            CargoTomlError::MissingPackageField { workspace: false },
        ),
        match parsed_tree(contents@) {
            None => r matches Err(CargoTomlError::ParseToml(_)),
            Some(t) => match version_edit(t, version@) {
                Err(e) => r == Err::<(bool, String), CargoTomlError>(e),
                Ok(None) => r == Ok::<(bool, String), CargoTomlError>((false, contents)),
                Ok(Some(p)) => r is Ok && r->Ok_0.0 && parsed_tree(r->Ok_0.1@) == Some(
                    with_text(t, p, version@),
                ) && version_edit(with_text(t, p, version@), version@) == Ok::<
                    Option<Seq<Seq<char>>>,
                    CargoTomlError,
                >(None) && exists|d: toml_edit::DocumentMut|
                    #[trigger] document_tree(d) == with_text(t, p, version@) && r->Ok_0.1@
                        == document_text(d),
            },
        },
{
    let mut document = match parse_document(contents.as_str()) {
        Ok(d) => d,
        Err(error) => return Err(CargoTomlError::ParseToml(Box::new(error))),
    };
    let ghost t = document_tree(document);
    let root = root_item_mut(&mut document);
    let modified;
    if item_get(root, "workspace").is_some() {
        let workspace = item_get_mut(root, "workspace").unwrap();
        if !item_is_table_like(workspace) {
            return Err(CargoTomlError::InvalidWorkspaceFieldDataType);
        }
        proof {
            assert(seq!["workspace"@] + seq!["package"@] =~= package_path(true));
            assert(seq!["workspace"@] + (seq!["package"@] + seq!["version"@]) =~= version_path(
                true,
            ));
            assert(seq!["package"@] + seq!["version"@] =~= seq!["package"@, "version"@]);
        }
        if item_get(workspace, "package").is_none() {
            return Err(CargoTomlError::MissingPackageField { workspace: true });
        }
        let package = item_get_mut(workspace, "package").unwrap();
        if !item_is_table_like(package) {
            return Err(CargoTomlError::InvalidPackageFieldDataType { workspace: true });
        }
        modified = set_package_version(package, version, true)?;
        proof {
            lemma_graft_with_text(subtree(t, "workspace"@), "package"@, seq!["version"@], version@);
            lemma_graft_with_text(t, "workspace"@, seq!["package"@, "version"@], version@);
        }
    } else if item_get(root, "package").is_some() {
        let package = item_get_mut(root, "package").unwrap();
        if !item_is_table_like(package) {
            return Err(CargoTomlError::InvalidPackageFieldDataType { workspace: false });
        }
        proof {
            assert(seq!["package"@] + seq!["version"@] =~= version_path(false));
        }
        modified = set_package_version(package, version, false)?;
        proof {
            lemma_graft_with_text(t, "package"@, seq!["version"@], version@);
        }
    } else {
        return Err(CargoTomlError::MissingPackageField { workspace: false });
    }
    if modified {
        proof {
            lemma_set_twice(t, version@);
        }
        Ok((true, print_document(&document)))
    } else {
        Ok((false, contents))
    }
}

/// The program and the arguments of the command that brings the lock file of
/// a Cargo project up to date: `cargo check`.
pub fn cargo_update_lock_file_command() -> (r: (String, Vec<String>))
    ensures
        r.0@ == "cargo"@,
        r.1@.len() == 1,
        r.1@[0]@ == "check"@,
{
    let mut args: Vec<String> = Vec::new();
    args.push("check".to_owned());
    ("cargo".to_owned(), args)
}

/// Whether two strings are equal.
fn str_eq(a: &str, b: &str) -> (r: bool)
    ensures
        r == (a@ == b@),
{
    let n = a.unicode_len();
    if n != b.unicode_len() {
        return false;
    }
    let mut i: usize = 0;
    while i < n
        invariant
            n == a@.len(),
            n == b@.len(),
            0 <= i <= n,
            forall|j: int| 0 <= j < i ==> a@[j] == b@[j],
        decreases n - i,
    {
        if a.get_char(i) != b.get_char(i) {
            return false;
        }
        i = i + 1;
    }
    assert(a@ =~= b@);
    true
}

} // verus!
