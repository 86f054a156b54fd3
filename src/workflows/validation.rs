//! Checks on a new name, each failing with a message for people.
use crate::path::{path_of, FsPath};
use crate::text::{blank, cat, cat3, is_blank, owned};
use vstd::prelude::*;
use vstd::string::*;

verus! {

/// Whether `c` may appear in an identifier: an ASCII letter or digit, or an
/// underscore.
pub open spec fn is_identifier_char(c: char) -> bool {
    ('a' <= c && c <= 'z') || ('A' <= c && c <= 'Z') || ('0' <= c && c <= '9') || c == '_'
}

/// Whether `s` holds identifier characters only.
pub open spec fn is_identifier(s: Seq<char>) -> bool {
    forall|i: int| 0 <= i < s.len() ==> is_identifier_char(#[trigger] s[i])
}

/// Fails when the new name is empty or white space only.
pub fn validate_new_name_is_not_empty(new_name: &str) -> (r: Result<(), String>)
    ensures
        r is Ok <==> !is_blank(new_name@),
        r matches Err(m) ==> m@ == "new name must not be empty"@,
{
    if blank(new_name) {
        Err(owned("new name must not be empty"))
    } else {
        Ok(())
    }
}

/// Fails when the new name takes more than `max_len` bytes.
pub fn validate_new_name_is_concise(new_name: &str, max_len: usize) -> (r: Result<(), String>)
    ensures
        r is Ok <==> new_name.len() <= max_len,
{
    if new_name.len() <= max_len {
        Ok(())
    } else {
        let n = max_len.to_string();
        Err(cat3("new name must not be longer than ", n.as_str(), " characters"))
    }
}

/// Fails when the new name holds anything but ASCII letters, digits and
/// underscores.
pub fn validate_new_name_is_valid_identifier(new_name: &str) -> (r: Result<(), String>)
    ensures
        r is Ok <==> is_identifier(new_name@),
        r matches Err(m) ==> m@
            == "new name must be comprised of alphanumeric characters and underscores only"@,
{
    let n = new_name.unicode_len();
    let mut i: usize = 0;
    while i < n
        invariant
            i <= n == new_name@.len(),
            forall|j: int| 0 <= j < i ==> is_identifier_char(#[trigger] new_name@[j]),
        decreases n - i,
    {
        let c = new_name.get_char(i);
        if !(('a' <= c && c <= 'z') || ('A' <= c && c <= 'Z') || ('0' <= c && c <= '9') || c
            == '_') {
            return Err(
                owned("new name must be comprised of alphanumeric characters and underscores only"),
            );
        }
        i = i + 1;
    }
    Ok(())
}

/// Fails when the new name equals the current one.
pub fn validate_new_name_is_novel(old_name: &str, new_name: &str) -> (r: Result<(), String>)
    ensures
        r is Ok <==> old_name@ != new_name@,
        r matches Err(m) ==> m@ == "new name must be different than current name"@,
{
    if owned(old_name) == owned(new_name) {
        Err(owned("new name must be different than current name"))
    } else {
        Ok(())
    }
}

/// Fails when the new name is already taken by one of `names`; `kind`
/// names what they are.
pub fn validate_new_name_is_unique(new_name: &str, names: &Vec<String>, kind: &str) -> (r: Result<(), String>)
    ensures
        r is Ok <==> !names@.map_values(|s: String| s@).contains(new_name@),
        r matches Err(m) ==> m@ == "new name must not conflict with another "@ + kind@,
{
    if crate::unreal::contains_name(names, new_name) {
        Err(cat("new name must not conflict with another ", kind))
    } else {
        Ok(())
    }
}

/// Fails when `name` is not among `names`; `kind` names what they are.
pub fn validate_exists(name: &str, names: &Vec<String>, kind: &str) -> (r: Result<(), String>)
    ensures
        r is Ok <==> names@.map_values(|s: String| s@).contains(name@),
        r matches Err(m) ==> m@ == kind@ + " must be part of project"@,
{
    if crate::unreal::contains_name(names, name) {
        Ok(())
    } else {
        Err(cat(kind, " must be part of project"))
    }
}

/// Fails when the project root is `.` or `..`.
pub fn validate_project_root_is_not_special(project_root: &FsPath) -> (r: Result<(), String>)
    ensures
        r is Ok <==> project_root@ != path_of("."@) && project_root@ != path_of(".."@),
{
    if project_root.same_as(&FsPath::new(".")) {
        Err(owned("project root cannot be '.'"))
    } else if project_root.same_as(&FsPath::new("..")) {
        Err(owned("project root cannot be '..'"))
    } else {
        Ok(())
    }
}

} // verus!
