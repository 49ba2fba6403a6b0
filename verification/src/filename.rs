//! The default name of the output file: the input path with `-trimmed` put
//! between the stem and the extension of its file name.
//!
//! Paths are read as on Unix: `/` parts the components, and a component `.`
//! that is not the first stands for nothing.
use vstd::prelude::*;
use vstd::string::*;

verus! {

/// What is put behind the stem of the file name.
pub const SUFFIX: &'static str = "-trimmed";

/// The end of what is left of the first `end` characters of `path` once the
/// separators and the `.` components they end in are dropped.
pub open spec fn body_end(path: Seq<char>, end: int) -> int
    decreases end,
{
    if end <= 0 {
        0
    } else if path[end - 1] == '/' {
        body_end(path, end - 1)
    } else if path[end - 1] == '.' && end >= 2 && path[end - 2] == '/' {
        body_end(path, end - 1)
    } else {
        end
    }
}

/// Where the component that ends at `end` starts: behind the last separator
/// before `end`, or at the start of `path`.
pub open spec fn component_start(path: Seq<char>, end: int) -> int
    decreases end,
{
    if end <= 0 {
        0
    } else if path[end - 1] == '/' {
        end
    } else {
        component_start(path, end - 1)
    }
}

/// Where the file name of `path` starts.
pub open spec fn name_start(path: Seq<char>) -> int {
    component_start(path, name_end(path))
}

/// Where the file name of `path` ends.
pub open spec fn name_end(path: Seq<char>) -> int {
    body_end(path, path.len() as int)
}

/// The last component of `path`, where it names a file or a directory: there
/// is none where the path is empty or ends in the root, in `.` or in `..`.
pub open spec fn file_name(path: Seq<char>) -> Option<Seq<char>> {
    let name = path.subrange(name_start(path), name_end(path));
    if name.len() == 0 || name =~= seq!['.'] || name =~= seq!['.', '.'] {
        None
    } else {
        Some(name)
    }
}

/// Where the directory part of `path` ends: the path before its file name,
/// without the separators and `.` components it ends in, but never less than
/// the root.
pub open spec fn directory_end(path: Seq<char>) -> int {
    let end = body_end(path, name_start(path));
    if end == 0 && name_start(path) > 0 {
        1
    } else {
        end
    }
}

/// The directory part of `path`.
pub open spec fn directory(path: Seq<char>) -> Seq<char> {
    path.subrange(0, directory_end(path))
}

/// The index of the last dot among the first `end` characters of `name`; 0
/// where there is none.
pub open spec fn last_dot(name: Seq<char>, end: int) -> int
    decreases end,
{
    if end <= 0 {
        0
    } else if name[end - 1] == '.' {
        end - 1
    } else {
        last_dot(name, end - 1)
    }
}

/// The length of the stem of `name`: up to its last dot, or all of it where
/// it holds no dot or only a leading one.
pub open spec fn stem_len(name: Seq<char>) -> int {
    let dot = last_dot(name, name.len() as int);
    if dot > 0 {
        dot
    } else {
        name.len() as int
    }
}

/// The file name without its final extension.
pub open spec fn file_stem(name: Seq<char>) -> Seq<char> {
    name.subrange(0, stem_len(name))
}

/// The final extension of `name`, without its dot; empty where the name has
/// none, and where nothing follows the last dot.
pub open spec fn file_extension(name: Seq<char>) -> Seq<char> {
    if stem_len(name) < name.len() {
        name.subrange(stem_len(name) + 1, name.len() as int)
    } else {
        Seq::empty()
    }
}

/// `dir` ready to take a file name: with a separator behind it, unless it is
/// empty or ends in one.
pub open spec fn with_separator(dir: Seq<char>) -> Seq<char> {
    if dir.len() == 0 || dir.last() == '/' {
        dir
    } else {
        dir.push('/')
    }
}

/// `.` and the extension, or nothing where the extension is empty.
pub open spec fn extension_segment(extension: Seq<char>) -> Seq<char> {
    if extension.len() == 0 {
        extension
    } else {
        seq!['.'] + extension
    }
}

/// The default output path for the input path `path`: directory, stem,
/// suffix and extension. A path without a file name is its own output path.
pub open spec fn default_output(path: Seq<char>) -> Seq<char> {
    match file_name(path) {
        None => path,
        Some(name) => with_separator(directory(path)) + file_stem(name) + SUFFIX@
            + extension_segment(file_extension(name)),
    }
}

/// The characters of `s`, in a vector.
fn chars_of(s: &str) -> (chars: Vec<char>)
    ensures
        chars@ == s@,
{
    let mut chars: Vec<char> = Vec::new();
    let it = s.chars();
    for c in iter: it
        invariant
            iter.seq() == s@,
            chars@ == iter.seq().take(iter.index()),
    {
        chars.push(c);
    }
    chars
}

/// Computes [`body_end`].
fn find_body_end(path: &Vec<char>, end: usize) -> (e: usize)
    requires
        end <= path@.len(),
    ensures
        e == body_end(path@, end as int),
        e <= end,
{
    let mut e: usize = end;
    while e > 0 && (path[e - 1] == '/' || (path[e - 1] == '.' && e >= 2 && path[e - 2] == '/'))
        invariant
            e <= end <= path@.len(),
            body_end(path@, end as int) == body_end(path@, e as int),
        decreases e,
    {
        e -= 1;
    }
    e
}

/// Computes [`component_start`].
fn find_component_start(path: &Vec<char>, end: usize) -> (s: usize)
    requires
        end <= path@.len(),
    ensures
        s == component_start(path@, end as int),
        s <= end,
{
    let mut s: usize = end;
    while s > 0 && path[s - 1] != '/'
        invariant
            s <= end <= path@.len(),
            component_start(path@, end as int) == component_start(path@, s as int),
        decreases s,
    {
        s -= 1;
    }
    s
}

/// Computes [`last_dot`] of the name that `path` holds from `start` to `end`,
/// as an index into the name.
fn find_last_dot(path: &Vec<char>, start: usize, end: usize) -> (d: usize)
    requires
        start <= end <= path@.len(),
    ensures
        d == last_dot(path@.subrange(start as int, end as int), end - start),
        d <= end - start,
{
    let ghost name = path@.subrange(start as int, end as int);
    let mut e: usize = end;
    while e > start && path[e - 1] != '.'
        invariant
            start <= e <= end <= path@.len(),
            name == path@.subrange(start as int, end as int),
            last_dot(name, end - start) == last_dot(name, e - start),
        decreases e,
    {
        assert(name[e - start - 1] == path@[e - 1]);
        e -= 1;
    }
    if e > start {
        e - 1 - start
    } else {
        0
    }
}

/// Derives the output path from the input path where none is given:
/// `<directory>/<stem>-trimmed.<extension>`.
///
/// The stem is the file name without its final extension; a name without a
/// dot, or with a leading dot only, is all stem. The extension segment is
/// left out where the extension is empty. A path without a file name comes
/// back as it is.
pub fn default_output_filename(input_filename: &str) -> (output: String)
    ensures
        output@ == default_output(input_filename@),
{
    let path = chars_of(input_filename);
    let end = find_body_end(&path, path.len());
    let start = find_component_start(&path, end);
    let ghost name = path@.subrange(start as int, end as int);
    let nameless = end == start || (end - start == 1 && path[start] == '.') || (end - start == 2
        && path[start] == '.' && path[start + 1] == '.');
    assert(nameless <==> file_name(path@) is None) by {
        if end - start == 1 {
            assert(name[0] == path@[start as int]);
        }
        if end - start == 2 {
            assert(name[0] == path@[start as int]);
            assert(name[1] == path@[start + 1]);
        }
    }
    if nameless {
        return String::from_str(input_filename);
    }
    let trimmed_end = find_body_end(&path, start);
    let dir_end: usize = if trimmed_end == 0 && start > 0 {
        1
    } else {
        trimmed_end
    };
    let dot = find_last_dot(&path, start, end);
    let stem_end: usize = if dot > 0 {
        start + dot
    } else {
        end
    };
    let mut output = String::from_str(input_filename.substring_char(0, dir_end));
    if dir_end > 0 && path[dir_end - 1] != '/' {
        output.append("/");
        proof {
            reveal_strlit("/");
        }
    }
    assert(output@ =~= with_separator(directory(path@)));
    output.append(input_filename.substring_char(start, stem_end));
    assert(path@.subrange(start as int, stem_end as int) =~= file_stem(name));
    output.append(SUFFIX);
    if end - stem_end > 1 {
        output.append(".");
        output.append(input_filename.substring_char(stem_end + 1, end));
        proof {
            reveal_strlit(".");
        }
        assert(path@.subrange(stem_end + 1, end as int) =~= file_extension(name));
    }
    assert(output@ =~= default_output(path@));
    output
}

} // verus!
