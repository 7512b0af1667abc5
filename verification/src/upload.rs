//! Picking the two builds to compare out of the fields of an upload form.

use vstd::prelude::*;
use vstd::string::StringExecFns;

use crate::error::Error;
use crate::text::push_str;

verus! {

/// One field of an upload form: its name, the name of the file it carries
/// (where the form gives one), and the file's bytes.
pub struct UploadField {
    pub name: Option<String>,
    pub file_name: Option<String>,
    pub bytes: Vec<u8>,
}

/// A build picked from the form: the name it goes by and its bytes.
pub struct Upload {
    pub name: String,
    pub bytes: Vec<u8>,
}

/// A field's name, empty where it has none.
pub open spec fn field_name(f: UploadField) -> Seq<char> {
    match f.name {
        Some(n) => n@,
        None => Seq::empty(),
    }
}

/// The name a field's build goes by: the name of its file, or else the
/// field's name followed by `.so`.
pub open spec fn build_name(f: UploadField) -> Seq<char> {
    match f.file_name {
        Some(n) => n@,
        None => field_name(f) + ".so"@,
    }
}

/// The build of the last field in `fields` named `key`, with its name.
pub open spec fn last_build(fields: Seq<UploadField>, key: Seq<char>) -> Option<(Seq<char>, Seq<u8>)>
    decreases fields.len(),
{
    if fields.len() == 0 {
        None
    } else if field_name(fields.last()) == key {
        Some((build_name(fields.last()), fields.last().bytes@))
    } else {
        last_build(fields.drop_last(), key)
    }
}

/// What a picked build says.
pub open spec fn upload_view(u: Upload) -> (Seq<char>, Seq<u8>) {
    (u.name@, u.bytes@)
}

/// Picks the old and the new build out of an upload form's fields: the old
/// build is the last field named `old`, the new build the last field named
/// `new`; fields with other names are ignored. Where the form has no `old`
/// field the error is `MissingFile` for `old`; else, where it has no `new`
/// field, `MissingFile` for `new`.
pub fn select_uploads(fields: Vec<UploadField>) -> (r: Result<(Upload, Upload), Error>)
    ensures
        match r {
            Ok((old, new)) => {
                &&& last_build(fields@, "old"@) == Some(upload_view(old))
                &&& last_build(fields@, "new"@) == Some(upload_view(new))
            },
            Err(e) => e matches Error::MissingFile { field } && {
                ||| last_build(fields@, "old"@) is None && field@ == "old"@
                ||| last_build(fields@, "old"@) is Some && last_build(fields@, "new"@) is None && field@ == "new"@
            },
        },
{
    let ghost all = fields@;
    let old_key = String::from_str("old");
    let new_key = String::from_str("new");
    let mut rest = fields;
    let mut old: Option<Upload> = None;
    let mut new: Option<Upload> = None;
    while rest.len() > 0
        invariant
            old_key@ == "old"@,
            new_key@ == "new"@,
            match old {
                Some(u) => last_build(all, "old"@) == Some(upload_view(u)),
                None => last_build(all, "old"@) == last_build(rest@, "old"@),
            },
            match new {
                Some(u) => last_build(all, "new"@) == Some(upload_view(u)),
                None => last_build(all, "new"@) == last_build(rest@, "new"@),
            },
        decreases rest@.len(),
    {
        let ghost before = rest@;
        let field = rest.pop().unwrap();
        proof {
            assert(before.drop_last() == rest@);
            reveal_strlit("old");
            reveal_strlit("new");
            assert("old"@[0] != "new"@[0]);
        }
        let name = match &field.name {
            Some(n) => n.clone(),
            None => String::new(),
        };
        let is_old = name == old_key;
        let is_new = name == new_key;
        if (is_old && old.is_none()) || (is_new && new.is_none()) {
            let label = match field.file_name {
                Some(file) => file,
                None => {
                    let mut s = name.clone();
                    push_str(&mut s, ".so");
                    s
                },
            };
            let upload = Upload { name: label, bytes: field.bytes };
            if is_old {
                old = Some(upload);
            } else {
                new = Some(upload);
            }
        }
    }
    match (old, new) {
        (Some(o), Some(n)) => Ok((o, n)),
        (None, _) => Err(Error::MissingFile { field: String::from_str("old") }),
        (Some(_), None) => Err(Error::MissingFile { field: String::from_str("new") }),
    }
}

} // verus!
