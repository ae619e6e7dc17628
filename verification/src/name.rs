//! Profile names: which strings may name a profile.

use vstd::prelude::*;
use vstd::string::{StrSliceExecFns, StringExecFns};

verus! {

/// The greatest number of characters a profile name may have.
pub const MAX_NAME_LEN: usize = 64;

/// Why a string cannot name a profile.
#[derive(Clone, Copy, Debug, PartialEq, Eq, Structural)]
pub enum NameError {
    /// The name has no characters.
    Empty,
    /// The name has more than `MAX_NAME_LEN` characters.
    TooLong,
    /// The name holds a character other than an ASCII letter, an ASCII
    /// digit, `-` or `_`.
    BadCharacter,
}

impl NameError {
    /// The error in words.
    pub open spec fn description(self) -> Seq<char> {
        match self {
            NameError::Empty => "profile name must not be empty"@,
            NameError::TooLong => "profile name is too long (max 64)"@,
            NameError::BadCharacter => "profile name may contain only [A-Za-z0-9-_]"@,
        }
    }

    /// Writes the error in words.
    pub fn describe(&self) -> (s: String)
        ensures
            s@ == self.description(),
    {
        match self {
            NameError::Empty => String::from_str("profile name must not be empty"),
            NameError::TooLong => String::from_str("profile name is too long (max 64)"),
            NameError::BadCharacter => String::from_str(
                "profile name may contain only [A-Za-z0-9-_]",
            ),
        }
    }
}

/// A character that may occur in a profile name.
pub open spec fn name_char(c: char) -> bool {
    ||| 'a' <= c <= 'z'
    ||| 'A' <= c <= 'Z'
    ||| '0' <= c <= '9'
    ||| c == '-'
    ||| c == '_'
}

/// Every character of `s` may occur in a profile name.
pub open spec fn name_chars(s: Seq<char>) -> bool {
    forall|i: int| 0 <= i < s.len() ==> name_char(#[trigger] s[i])
}

/// `s` may name a profile: it is not empty, has at most `MAX_NAME_LEN`
/// characters, and all of them are letters, digits, `-` or `_`.
pub open spec fn valid_name(s: Seq<char>) -> bool {
    &&& 0 < s.len() <= MAX_NAME_LEN
    &&& name_chars(s)
}

/// What `validate_profile_name` answers for `s`. A name is judged in a fixed
/// order: emptiness, then length, then the characters.
pub open spec fn name_verdict(s: Seq<char>) -> Result<(), NameError> {
    if s.len() == 0 {
        Err(NameError::Empty)
    } else if s.len() > MAX_NAME_LEN {
        Err(NameError::TooLong)
    } else if !name_chars(s) {
        Err(NameError::BadCharacter)
    } else {
        Ok(())
    }
}

fn is_name_char(c: char) -> (b: bool)
    ensures
        b == name_char(c),
{
    ('a' <= c && c <= 'z') || ('A' <= c && c <= 'Z') || ('0' <= c && c <= '9') || c == '-' || c
        == '_'
}

/// Decides whether `name` may name a profile, and says why not.
pub fn validate_profile_name(name: &str) -> (r: Result<(), NameError>)
    ensures
        r == name_verdict(name@),
        r is Ok <==> valid_name(name@),
{
    let len: usize = name.unicode_len();
    if len == 0 {
        return Err(NameError::Empty);
    }
    if len > MAX_NAME_LEN {
        return Err(NameError::TooLong);
    }
    let mut i: usize = 0;
    while i < len
        invariant
            len == name@.len(),
            0 < len <= MAX_NAME_LEN,
            i <= len,
            forall|j: int| 0 <= j < i ==> name_char(#[trigger] name@[j]),
        decreases len - i,
    {
        if !is_name_char(name.get_char(i)) {
            assert(!name_char(name@[i as int]));
            return Err(NameError::BadCharacter);
        }
        i += 1;
    }
    Ok(())
}

/// The name of the file that holds the profile `name`.
pub open spec fn file_name(name: Seq<char>) -> Seq<char> {
    name + ".json"@
}

/// The path of `file` in the directory `dir`, joined the way a Unix path is:
/// with one `/` between the two, unless `dir` is empty or ends in `/`.
pub open spec fn path_in(dir: Seq<char>, file: Seq<char>) -> Seq<char> {
    if dir.len() == 0 || dir.last() == '/' {
        dir + file
    } else {
        dir + "/"@ + file
    }
}

/// The path of the file that holds the profile `name`, in the directory
/// `root`. A name that is not valid has no path: it is refused, with the
/// reason, before anything is looked up.
pub fn profile_path(root: &str, name: &str) -> (r: Result<String, NameError>)
    ensures
        match r {
            Ok(path) => valid_name(name@) && path@ == path_in(root@, file_name(name@)),
            Err(e) => name_verdict(name@) == Err::<(), NameError>(e),
        },
{
    match validate_profile_name(name) {
        Err(e) => Err(e),
        Ok(_) => {
            let mut path = String::from_str(root);
            let len: usize = root.unicode_len();
            if len > 0 && root.get_char(len - 1) != '/' {
                path.append("/");
            }
            path.append(name);
            path.append(".json");
            assert(path@ =~= path_in(root@, file_name(name@)));
            Ok(path)
        },
    }
}

/// The profile that a file of a profile directory holds, going by the
/// file's name: what stands before `.json`, if the name ends so and that is
/// a valid profile name.
pub open spec fn listed_name(file: Seq<char>) -> Option<Seq<char>> {
    let n = file.len() - 5;
    if n >= 0 && file.skip(n) == ".json"@ && valid_name(file.take(n)) {
        Some(file.take(n))
    } else {
        None
    }
}

/// The profiles that the files `files` hold, in the order of the files.
pub open spec fn listed_names(files: Seq<Seq<char>>) -> Seq<Seq<char>>
    decreases files.len(),
{
    if files.len() == 0 {
        Seq::empty()
    } else {
        match listed_name(files.last()) {
            Some(name) => listed_names(files.drop_last()).push(name),
            None => listed_names(files.drop_last()),
        }
    }
}

/// `a` comes before `b`, or is equal to it, in the order of `String`:
/// character by character, by code point, a prefix before what extends it.
pub open spec fn text_le(a: Seq<char>, b: Seq<char>) -> bool
    decreases a.len(),
{
    if a.len() == 0 {
        true
    } else if b.len() == 0 {
        false
    } else if a[0] != b[0] {
        a[0] < b[0]
    } else {
        text_le(a.drop_first(), b.drop_first())
    }
}

/// The texts stand in ascending order.
pub open spec fn ascending(texts: Seq<Seq<char>>) -> bool {
    forall|i: int, j: int| 0 <= i < j < texts.len() ==> text_le(#[trigger] texts[i], #[trigger] texts[j])
}

/// `Vec::sort` on strings. The contract states what the standard library
/// documents: the same strings come back, in ascending order, where strings
/// are ordered by their bytes, which is the order of their code points.
#[verifier::external_body]
fn sort_names(names: &mut Vec<String>)
    ensures
        final(names).deep_view().to_multiset() == old(names).deep_view().to_multiset(),
        ascending(final(names).deep_view()),
{
    names.sort();
}

fn listed(file: &str) -> (r: Option<String>)
    ensures
        r.deep_view() == listed_name(file@),
{
    let len: usize = file.unicode_len();
    if len < 5 {
        return None;
    }
    let ending = String::from_str(file.substring_char(len - 5, len));
    if !ending.eq(&String::from_str(".json")) {
        return None;
    }
    let stem = file.substring_char(0, len - 5);
    assert(stem@ =~= file@.take(len - 5));
    assert(ending@ =~= file@.skip(len - 5));
    match validate_profile_name(stem) {
        Ok(_) => Some(String::from_str(stem)),
        Err(_) => None,
    }
}

/// Lists the profiles of a profile directory, given the names of the files
/// in it.
///
/// A file counts if its name is a valid profile name followed by `.json`;
/// any other file is passed over. The names come back in ascending order.
pub fn list(files: &Vec<String>) -> (names: Vec<String>)
    ensures
        names.deep_view().to_multiset() == listed_names(files.deep_view()).to_multiset(),
        ascending(names.deep_view()),
{
    let mut names: Vec<String> = Vec::new();
    let mut i: usize = 0;
    assert(files.deep_view().take(0) =~= Seq::<Seq<char>>::empty());
    assert(names.deep_view() =~= Seq::<Seq<char>>::empty());
    while i < files.len()
        invariant
            i <= files.len(),
            names.deep_view() == listed_names(files.deep_view().take(i as int)),
        decreases files.len() - i,
    {
        proof {
            let done = files.deep_view().take(i as int);
            let next = files.deep_view().take(i + 1);
            assert(next.drop_last() =~= done);
            assert(next.last() == files[i as int]@);
        }
        let ghost before = names.deep_view();
        match listed(files[i].as_str()) {
            Some(name) => {
                names.push(name);
                assert(names.deep_view() =~= before.push(name@));
            },
            None => {},
        }
        i += 1;
    }
    assert(files.deep_view().take(i as int) =~= files.deep_view());
    sort_names(&mut names);
    names
}

} // verus!
