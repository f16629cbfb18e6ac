use vstd::prelude::*;

verus! {

/// A character D-Bus accepts inside a name: an ASCII letter, a digit, or `_`.
pub open spec fn is_name_char(c: char) -> bool {
    ('0' <= c && c <= '9') || ('A' <= c && c <= 'Z') || ('a' <= c && c <= 'z') || c == '_'
}

/// A character D-Bus accepts at the start of a name: as [`is_name_char`],
/// but never a digit.
pub open spec fn is_initial_name_char(c: char) -> bool {
    ('A' <= c && c <= 'Z') || ('a' <= c && c <= 'z') || c == '_'
}

/// A syntactically valid D-Bus member name: one to 255 name characters, the
/// first of which is not a digit.
pub open spec fn is_valid_member_name(s: Seq<char>) -> bool {
    &&& 1 <= s.len() <= 255
    &&& is_initial_name_char(s[0])
    &&& forall|i: int| 1 <= i < s.len() ==> is_name_char(#[trigger] s[i])
}

/// A syntactically valid D-Bus object path: `/`, or `/`-separated non-empty
/// components of name characters, with no trailing separator.
pub open spec fn is_valid_object_path(s: Seq<char>) -> bool {
    &&& s.len() >= 1
    &&& s[0] == '/'
    &&& forall|i: int| 0 <= i < s.len() ==> s[i] == '/' || is_name_char(#[trigger] s[i])
    &&& forall|i: int| 0 <= i < s.len() - 1 ==> !(#[trigger] s[i] == '/' && s[i + 1] == '/')
    &&& s.len() > 1 ==> s[s.len() - 1] != '/'
}

/// Decides [`is_name_char`].
fn check_name_char(c: char) -> (r: bool)
    ensures
        r == is_name_char(c),
{
    ('0' <= c && c <= '9') || ('A' <= c && c <= 'Z') || ('a' <= c && c <= 'z') || c == '_'
}

/// Decides [`is_initial_name_char`].
fn check_initial_name_char(c: char) -> (r: bool)
    ensures
        r == is_initial_name_char(c),
{
    ('A' <= c && c <= 'Z') || ('a' <= c && c <= 'z') || c == '_'
}

/// Decides [`is_valid_member_name`].
pub fn check_member_name(s: &str) -> (r: bool)
    ensures
        r == is_valid_member_name(s@),
{
    let n = s.unicode_len();
    if n < 1 || n > 255 {
        return false;
    }
    if !check_initial_name_char(s.get_char(0)) {
        return false;
    }
    let mut i: usize = 1;
    while i < n
        invariant
            1 <= i <= n,
            n == s@.len(),
            forall|j: int| 1 <= j < i ==> is_name_char(#[trigger] s@[j]),
        decreases n - i,
    {
        if !check_name_char(s.get_char(i)) {
            return false;
        }
        i += 1;
    }
    true
}

/// Decides [`is_valid_object_path`].
pub fn check_object_path(s: &str) -> (r: bool)
    ensures
        r == is_valid_object_path(s@),
{
    let n = s.unicode_len();
    if n < 1 {
        return false;
    }
    if s.get_char(0) != '/' {
        return false;
    }
    let mut i: usize = 0;
    while i < n
        invariant
            0 <= i <= n,
            n == s@.len(),
            s@[0] == '/',
            forall|j: int| 0 <= j < i ==> s@[j] == '/' || is_name_char(#[trigger] s@[j]),
            forall|j: int| 0 <= j < i && j < n - 1 ==> !(#[trigger] s@[j] == '/' && s@[j + 1] == '/'),
        decreases n - i,
    {
        let c = s.get_char(i);
        if c != '/' && !check_name_char(c) {
            return false;
        }
        if c == '/' && i + 1 < n && s.get_char(i + 1) == '/' {
            return false;
        }
        i += 1;
    }
    if n > 1 && s.get_char(n - 1) == '/' {
        return false;
    }
    true
}

/// Character-by-character string equality.
pub fn str_eq(a: &str, b: &str) -> (r: bool)
    ensures
        r == (a@ == b@),
{
    let na = a.unicode_len();
    let nb = b.unicode_len();
    if na != nb {
        return false;
    }
    let mut i: usize = 0;
    while i < na
        invariant
            0 <= i <= na,
            na == a@.len(),
            na == b@.len(),
            forall|j: int| 0 <= j < i ==> a@[j] == b@[j],
        decreases na - i,
    {
        if a.get_char(i) != b.get_char(i) {
            return false;
        }
        i += 1;
    }
    proof {
        assert(a@ =~= b@);
    }
    true
}

/// A valid member name never contains a NUL character.
pub proof fn lemma_valid_member_has_no_nul(s: Seq<char>)
    requires
        is_valid_member_name(s),
    ensures
        forall|i: int| 0 <= i < s.len() ==> #[trigger] s[i] != '\u{0}',
{
}

/// A valid object path never contains a NUL character.
pub proof fn lemma_valid_path_has_no_nul(s: Seq<char>)
    requires
        is_valid_object_path(s),
    ensures
        forall|i: int| 0 <= i < s.len() ==> #[trigger] s[i] != '\u{0}',
{
}

#[verifier::external_type_specification]
#[verifier::external_body]
pub struct ExMember<'a>(dbus::strings::Member<'a>);

#[verifier::external_type_specification]
#[verifier::external_body]
pub struct ExDbusPath<'a>(dbus::strings::Path<'a>);

/// Relies on `dbus::strings::Member::new`, which defers to libdbus's
/// `dbus_validate_member`: it accepts a NUL-free string exactly when it is a
/// syntactically valid member name (one to 255 bytes of ASCII letters, digits
/// or `_`, not starting with a digit), and hands back the error text from
/// libdbus otherwise.
#[verifier::external_body]
pub(crate) fn member_new(s: &str) -> (r: Result<dbus::strings::Member<'static>, String>)
    requires
        forall|i: int| 0 <= i < s@.len() ==> #[trigger] s@[i] != '\u{0}',
    ensures
        r is Ok <==> is_valid_member_name(s@),
{
    dbus::strings::Member::new(String::from(s))
}

/// Relies on `dbus::strings::Path::new`, which defers to libdbus's
/// `dbus_validate_path`: it accepts a NUL-free string exactly when it is a
/// syntactically valid object path (`/`-separated non-empty components of
/// ASCII letters, digits or `_`, no trailing separator), and hands back the
/// error text from libdbus otherwise.
#[verifier::external_body]
pub(crate) fn path_new(s: &str) -> (r: Result<dbus::strings::Path<'static>, String>)
    requires
        forall|i: int| 0 <= i < s@.len() ==> #[trigger] s@[i] != '\u{0}',
    ensures
        r is Ok <==> is_valid_object_path(s@),
{
    dbus::strings::Path::new(String::from(s))
}

} // verus!
