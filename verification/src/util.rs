//! Small tools: file names, the workspace's name and place, quotes.
//!
//! Paths are text with `/` between their parts.

use vstd::prelude::*;
use crate::error::{fails_with, ErrorKind, PeonyError};
use crate::models::util::TempInfo;
use crate::outside::{uuid_of, uuid_text};
use crate::text::{chars_of, join2, join3, optional_text, string_of, trim, trimmed};

verus! {

/// What stands behind the last `/` of `path`; all of `path` if it has none.
pub open spec fn last_segment(path: Seq<char>) -> Seq<char>
    decreases path.len(),
{
    if path.len() == 0 || path.last() == '/' {
        Seq::empty()
    } else {
        last_segment(path.drop_last()).push(path.last())
    }
}

/// The file name of `path`: its last part, if that names something. Slashes
/// at the end are passed over, and so is a part `.`; a path that ends in `..`
/// has no file name, nor has the empty path or one that is only slashes.
pub open spec fn file_name_text(path: Seq<char>) -> Option<Seq<char>>
    decreases path.len(),
{
    if path.len() == 0 {
        None
    } else if path.last() == '/' {
        file_name_text(path.drop_last())
    } else if last_segment(path) == seq!['.'] {
        file_name_text(path.drop_last())
    } else if last_segment(path) == seq!['.', '.'] {
        None
    } else {
        Some(last_segment(path))
    }
}

/// `path` between double quotes, as it is shown in a message.
pub open spec fn quoted(path: Seq<char>) -> Seq<char> {
    seq!['"'] + path + seq!['"']
}

/// The file name of `path`, if it has one.
pub fn file_name_of(path: &str) -> (out: Option<String>)
    ensures
        optional_text(out) == file_name_text(path@),
{
    let chars = chars_of(path);
    let mut end: usize = chars.len();
    assert(chars@.take(end as int) =~= path@);
    while end > 0
        invariant
            end <= chars.len(),
            chars@ == path@,
            file_name_text(path@) == file_name_text(chars@.take(end as int)),
        decreases end,
    {
        let ghost upto = chars@.take(end as int);
        assert(upto.drop_last() =~= chars@.take(end - 1));
        if chars[end - 1] != '/' {
            let mut start: usize = end;
            assert(chars@.subrange(start as int, end as int) =~= Seq::<char>::empty());
            assert(upto.take(end as int) =~= upto);
            while start > 0 && chars[start - 1] != '/'
                invariant
                    start <= end <= chars.len(),
                    upto == chars@.take(end as int),
                    last_segment(upto) == last_segment(upto.take(start as int)) + chars@.subrange(
                        start as int,
                        end as int,
                    ),
                decreases start,
            {
                assert(upto.take(start as int).drop_last() =~= upto.take(start - 1));
                assert(last_segment(upto.take(start - 1)).push(chars@[start - 1])
                    + chars@.subrange(start as int, end as int) =~= last_segment(
                    upto.take(start - 1),
                ) + chars@.subrange(start - 1, end as int));
                start = start - 1;
            }
            assert(last_segment(upto.take(start as int)) =~= Seq::<char>::empty());
            assert(last_segment(upto) =~= chars@.subrange(start as int, end as int));
            let length = end - start;
            let dot = length == 1 && chars[start] == '.';
            let dots = length == 2 && chars[start] == '.' && chars[start + 1] == '.';
            proof {
                let segment = chars@.subrange(start as int, end as int);
                if segment == seq!['.'] {
                    assert(segment.len() == 1 && segment[0] == '.');
                }
                if segment == seq!['.', '.'] {
                    assert(segment.len() == 2 && segment[0] == '.' && segment[1] == '.');
                }
                if dot {
                    assert(segment =~= seq!['.']);
                }
                if dots {
                    assert(segment =~= seq!['.', '.']);
                }
            }
            if dots {
                return None;
            }
            if !dot {
                let mut name: Vec<char> = Vec::new();
                let mut i: usize = start;
                while i < end
                    invariant
                        start <= i <= end <= chars.len(),
                        name@ == chars@.subrange(start as int, i as int),
                    decreases end - i,
                {
                    name.push(chars[i]);
                    assert(name@ =~= chars@.subrange(start as int, i + 1));
                    i = i + 1;
                }
                return Some(string_of(&name));
            }
        }
        end = end - 1;
    }
    assert(chars@.take(0) =~= Seq::<char>::empty());
    None
}

/// The file name of `path`, or the failure that `path` has none.
pub fn file_name_from_path(path: &str) -> (out: Result<String, PeonyError>)
    ensures
        match file_name_text(path@) {
            Some(name) => out matches Ok(found) && found@ == name,
            None => fails_with(out, ErrorKind::FileName, quoted(path@)),
        },
{
    match file_name_of(path) {
        Some(name) => Ok(name),
        None => {
            proof {
                reveal_strlit("\"");
                assert("\""@ =~= seq!['"']);
            }
            Err(PeonyError::new(ErrorKind::FileName, join3("\"", path, "\"")))
        },
    }
}

/// `string` without the double quotes at its start and at its end.
pub fn trim_quotes(string: String) -> (out: String)
    ensures
        out@ == trimmed(string@, '"'),
{
    trim(string.as_str(), '"')
}

/// The path of `part` inside the directory `base`. A `part` that starts at
/// the root stands for itself.
pub open spec fn joined_path(base: Seq<char>, part: Seq<char>) -> Seq<char> {
    if part.len() > 0 && part[0] == '/' {
        part
    } else if base.len() == 0 || base.last() == '/' {
        base + part
    } else {
        base + seq!['/'] + part
    }
}

/// Writes the path of `part` inside the directory `base`.
pub fn join_path(base: &str, part: &str) -> (out: String)
    ensures
        out@ == joined_path(base@, part@),
{
    let b = chars_of(base);
    let p = chars_of(part);
    if p.len() > 0 && p[0] == '/' {
        string_of(&p)
    } else if b.len() == 0 || b[b.len() - 1] == '/' {
        join2(base, part)
    } else {
        proof {
            reveal_strlit("/");
            assert("/"@ =~= seq!['/']);
        }
        join3(base, "/", part)
    }
}

/// The name of the workspace that the identifier `unique` tells from all
/// others.
pub open spec fn temp_dir_name_text(unique: Seq<char>) -> Seq<char> {
    "peony_"@ + unique
}

/// Names a workspace after the identifier `unique`.
pub fn temp_dir_name(unique: &str) -> (out: String)
    ensures
        out@ == temp_dir_name_text(unique@),
{
    join2("peony_", unique)
}

/// Names a new workspace and says where under `temp_root` it belongs. The
/// name holds the random identifier that is made of `random`. Nothing is
/// created: the caller makes the directory and copies the project into it.
pub fn create_temp(random: [u8; 16], temp_root: &str) -> (out: TempInfo)
    ensures
        out.dir_name@ == temp_dir_name_text(uuid_text(random@)),
        out.dir_path@ == joined_path(temp_root@, out.dir_name@),
{
    let unique = uuid_of(random);
    let dir_name = temp_dir_name(unique.as_str());
    let dir_path = join_path(temp_root, dir_name.as_str());
    TempInfo { dir_name, dir_path }
}

} // verus!
