//! Validation of login payloads: identifier shape and password length.

use vstd::prelude::*;

verus! {

/// A request body that has passed validation.
pub struct ValidatedJson<T>(pub T);

/// One field-level validation failure: a stable code and an optional
/// human-readable message.
#[derive(Debug)]
pub struct ValidationError {
    pub code: String,
    pub message: Option<String>,
}

/// The failures one field accumulated.
#[derive(Debug)]
pub struct FieldErrors {
    pub field: String,
    pub errors: Vec<ValidationError>,
}

/// The login request body: an identifier (email or username) and a
/// password.
#[derive(Debug)]
pub struct LoginUserDto {
    pub identifier: String,
    pub password: String,
}

/// Whether `c` may appear in the local part of an email address.
pub open spec fn is_local_char(c: char) -> bool {
    ||| ('a' <= c && c <= 'z')
    ||| ('A' <= c && c <= 'Z')
    ||| ('0' <= c && c <= '9')
    ||| c == '_'
    ||| c == '.'
    ||| c == '+'
    ||| c == '-'
}

/// Whether `c` may appear in the first label of an email domain.
pub open spec fn is_label_char(c: char) -> bool {
    ||| ('a' <= c && c <= 'z')
    ||| ('A' <= c && c <= 'Z')
    ||| ('0' <= c && c <= '9')
    ||| c == '-'
}

/// Whether `c` may appear in an email domain after its first dot.
pub open spec fn is_tail_char(c: char) -> bool {
    is_label_char(c) || c == '.'
}

/// That positions `i` and `j` split `s` into the email shape: a non-empty
/// local part of local characters, an `@`, a non-empty first domain label,
/// a dot, and a non-empty domain tail.
pub open spec fn email_split_at(s: Seq<char>, i: int, j: int) -> bool {
    &&& 1 <= i
    &&& i + 2 <= j
    &&& j + 1 < s.len()
    &&& s[i] == '@'
    &&& s[j] == '.'
    &&& forall|k: int| 0 <= k < i ==> is_local_char(#[trigger] s[k])
    &&& forall|k: int| i < k < j ==> is_label_char(#[trigger] s[k])
    &&& forall|k: int| j < k < s.len() ==> is_tail_char(#[trigger] s[k])
}

/// The standard email shape: some split of the string fits it.
pub open spec fn is_email_shape(s: Seq<char>) -> bool {
    exists|i: int, j: int| email_split_at(s, i, j)
}

/// In any email split the `@` stands at the first `@` of the string, since
/// the local part cannot contain one.
proof fn lemma_at_position_forced(s: Seq<char>, i: int, j: int, a: int)
    requires
        email_split_at(s, i, j),
        0 <= a < s.len(),
        s[a] == '@',
        forall|k: int| 0 <= k < a ==> #[trigger] s[k] != '@',
    ensures
        i == a,
{
    if i < a {
        assert(s[i] != '@');
    }
    if i > a {
        assert(is_local_char(s[a]));
    }
}

/// In any email split the dot stands at the first dot after the `@`, since
/// the label cannot contain one.
proof fn lemma_dot_position_forced(s: Seq<char>, i: int, j: int, d: int)
    requires
        email_split_at(s, i, j),
        i < d < s.len(),
        s[d] == '.',
        forall|k: int| i < k < d ==> #[trigger] s[k] != '.',
    ensures
        j == d,
{
    if j < d {
        assert(s[j] != '.');
    }
    if j > d {
        assert(is_label_char(s[d]));
    }
}

/// Decides whether `email` has the standard email shape: a non-empty run of
/// letters, digits or `_ . + -`, one `@`, a non-empty run of letters, digits
/// or `-`, a dot, and a non-empty tail of letters, digits, `-` or `.`.
pub fn validate_email(email: &str) -> (r: bool)
    ensures
        r == is_email_shape(email@),
{
    let ghost sv = email@;
    let n = email.unicode_len();
    // Find the `@`; every character before it must be a local character.
    let mut a: usize = 0;
    loop
        invariant
            n == sv.len(),
            sv == email@,
            a <= n,
            forall|k: int| 0 <= k < a ==> is_local_char(#[trigger] sv[k]) && sv[k] != '@',
        ensures
            a < n,
            sv[a as int] == '@',
            forall|k: int| 0 <= k < a ==> is_local_char(#[trigger] sv[k]) && sv[k] != '@',
        decreases n - a,
    {
        if a >= n {
            proof {
                if is_email_shape(sv) {
                    let (i, j) = choose|i: int, j: int| email_split_at(sv, i, j);
                    assert(sv[i] != '@');
                }
            }
            return false;
        }
        let c = email.get_char(a);
        if c == '@' {
            break ;
        }
        let local = (c >= 'a' && c <= 'z') || (c >= 'A' && c <= 'Z') || (c >= '0' && c <= '9')
            || c == '_' || c == '.' || c == '+' || c == '-';
        if !local {
            proof {
                if is_email_shape(sv) {
                    let (i, j) = choose|i: int, j: int| email_split_at(sv, i, j);
                    if i <= a {
                        assert(sv[i] == '@');
                    } else {
                        assert(is_local_char(sv[a as int]));
                    }
                }
            }
            return false;
        }
        a = a + 1;
    }
    if a == 0 {
        proof {
            if is_email_shape(sv) {
                let (i, j) = choose|i: int, j: int| email_split_at(sv, i, j);
                lemma_at_position_forced(sv, i, j, 0);
            }
        }
        return false;
    }
    // Find the dot after the `@`; every character between must be a label
    // character.
    let mut d: usize = a + 1;
    loop
        invariant
            n == sv.len(),
            sv == email@,
            0 < a < n,
            sv[a as int] == '@',
            forall|k: int| 0 <= k < a ==> is_local_char(#[trigger] sv[k]) && sv[k] != '@',
            a < d <= n,
            forall|k: int| a < k < d ==> is_label_char(#[trigger] sv[k]) && sv[k] != '.',
        ensures
            a < d < n,
            sv[d as int] == '.',
            forall|k: int| a < k < d ==> is_label_char(#[trigger] sv[k]) && sv[k] != '.',
        decreases n - d,
    {
        if d >= n {
            proof {
                if is_email_shape(sv) {
                    let (i, j) = choose|i: int, j: int| email_split_at(sv, i, j);
                    lemma_at_position_forced(sv, i, j, a as int);
                    assert(sv[j] != '.');
                }
            }
            return false;
        }
        let c = email.get_char(d);
        if c == '.' {
            break ;
        }
        let label = (c >= 'a' && c <= 'z') || (c >= 'A' && c <= 'Z') || (c >= '0' && c <= '9')
            || c == '-';
        if !label {
            proof {
                if is_email_shape(sv) {
                    let (i, j) = choose|i: int, j: int| email_split_at(sv, i, j);
                    lemma_at_position_forced(sv, i, j, a as int);
                    if j <= d {
                        assert(sv[j] != '.');
                    } else {
                        assert(is_label_char(sv[d as int]));
                    }
                }
            }
            return false;
        }
        d = d + 1;
    }
    if d == a + 1 {
        proof {
            if is_email_shape(sv) {
                let (i, j) = choose|i: int, j: int| email_split_at(sv, i, j);
                lemma_at_position_forced(sv, i, j, a as int);
                lemma_dot_position_forced(sv, i, j, d as int);
            }
        }
        return false;
    }
    if d + 1 >= n {
        proof {
            if is_email_shape(sv) {
                let (i, j) = choose|i: int, j: int| email_split_at(sv, i, j);
                lemma_at_position_forced(sv, i, j, a as int);
                lemma_dot_position_forced(sv, i, j, d as int);
            }
        }
        return false;
    }
    // Every character after the dot must be a tail character.
    let mut t: usize = d + 1;
    while t < n
        invariant
            n == sv.len(),
            sv == email@,
            0 < a,
            a + 2 <= d,
            d + 1 < n,
            sv[a as int] == '@',
            sv[d as int] == '.',
            forall|k: int| 0 <= k < a ==> is_local_char(#[trigger] sv[k]) && sv[k] != '@',
            forall|k: int| a < k < d ==> is_label_char(#[trigger] sv[k]) && sv[k] != '.',
            d < t <= n,
            forall|k: int| d < k < t ==> is_tail_char(#[trigger] sv[k]),
        decreases n - t,
    {
        let c = email.get_char(t);
        let tail = (c >= 'a' && c <= 'z') || (c >= 'A' && c <= 'Z') || (c >= '0' && c <= '9') || c
            == '-' || c == '.';
        if !tail {
            proof {
                if is_email_shape(sv) {
                    let (i, j) = choose|i: int, j: int| email_split_at(sv, i, j);
                    lemma_at_position_forced(sv, i, j, a as int);
                    lemma_dot_position_forced(sv, i, j, d as int);
                    assert(is_tail_char(sv[t as int]));
                }
            }
            return false;
        }
        t = t + 1;
    }
    proof {
        assert(email_split_at(sv, a as int, d as int));
    }
    true
}

/// Whether the string contains an `@` anywhere.
pub open spec fn contains_at_sign(s: Seq<char>) -> bool {
    exists|k: int| 0 <= k < s.len() && #[trigger] s[k] == '@'
}

fn has_at_sign(s: &str) -> (r: bool)
    ensures
        r == contains_at_sign(s@),
{
    let n = s.unicode_len();
    let mut k: usize = 0;
    while k < n
        invariant
            n == s@.len(),
            k <= n,
            forall|m: int| 0 <= m < k ==> #[trigger] s@[m] != '@',
        decreases n - k,
    {
        if s.get_char(k) == '@' {
            return true;
        }
        k = k + 1;
    }
    false
}

/// What validating an identifier yields: a string with an `@` must have the
/// email shape, and anything else must be at least three characters long.
pub open spec fn spec_identifier_valid(s: Seq<char>) -> bool {
    if contains_at_sign(s) {
        is_email_shape(s)
    } else {
        s.len() >= 3
    }
}

/// Validates a login identifier: one carrying an `@` must have the email
/// shape, and a username must be at least three characters long. The
/// returned failure carries the matching stable code and message.
pub fn validate_identifier(identifier: &str) -> (r: Result<(), ValidationError>)
    ensures
        spec_identifier_valid(identifier@) <==> r is Ok,
        r matches Err(e) ==> {
            &&& contains_at_sign(identifier@) ==> e.code@ == "invalid_email_format"@
            &&& contains_at_sign(identifier@) ==> (e.message matches Some(m) && m@
                == "invalid email format"@)
            &&& !contains_at_sign(identifier@) ==> e.code@ == "short_username"@
            &&& !contains_at_sign(identifier@) ==> (e.message matches Some(m) && m@
                == "username must be at least 3 characters long"@)
        },
{
    if has_at_sign(identifier) {
        if !validate_email(identifier) {
            return Err(
                ValidationError {
                    code: "invalid_email_format".to_owned(),
                    message: Some("invalid email format".to_owned()),
                },
            );
        }
    } else if identifier.unicode_len() < 3 {
        return Err(
            ValidationError {
                code: "short_username".to_owned(),
                message: Some("username must be at least 3 characters long".to_owned()),
            },
        );
    }
    Ok(())
}

/// What validating a password yields: between 3 and 20 characters.
pub open spec fn spec_password_valid(s: Seq<char>) -> bool {
    3 <= s.len() <= 20
}

/// Validates the password field of the login body.
pub fn validate_password(password: &str) -> (r: Result<(), ValidationError>)
    ensures
        spec_password_valid(password@) <==> r is Ok,
        r matches Err(e) ==> e.code@ == "length"@,
        r matches Err(e) ==> (e.message matches Some(m) && m@
            == "password must be between 3 and 20 characters"@),
{
    let n = password.unicode_len();
    if n < 3 || n > 20 {
        return Err(
            ValidationError {
                code: "length".to_owned(),
                message: Some("password must be between 3 and 20 characters".to_owned()),
            },
        );
    }
    Ok(())
}

impl LoginUserDto {
    /// Whether this body passes validation.
    pub open spec fn spec_valid(&self) -> bool {
        spec_identifier_valid(self.identifier@) && spec_password_valid(self.password@)
    }

    /// Validates both fields, collecting one entry per offending field, in
    /// field order.
    pub fn validate(&self) -> (r: Result<(), Vec<FieldErrors>>)
        ensures
            self.spec_valid() <==> r is Ok,
            r matches Err(fields) ==> {
                &&& fields@.len() >= 1
                &&& forall|i: int|
                    0 <= i < fields@.len() ==> (#[trigger] fields@[i]).errors@.len() == 1
                &&& !spec_identifier_valid(self.identifier@) ==> fields@[0].field@
                    == "identifier"@
                &&& !spec_password_valid(self.password@) ==> fields@[fields@.len()
                    - 1].field@ == "password"@
            },
    {
        let mut fields: Vec<FieldErrors> = Vec::new();
        if let Err(e) = validate_identifier(self.identifier.as_str()) {
            let mut errors: Vec<ValidationError> = Vec::new();
            errors.push(e);
            fields.push(FieldErrors { field: "identifier".to_owned(), errors });
        }
        if let Err(e) = validate_password(self.password.as_str()) {
            let mut errors: Vec<ValidationError> = Vec::new();
            errors.push(e);
            fields.push(FieldErrors { field: "password".to_owned(), errors });
        }
        if fields.len() == 0 {
            Ok(())
        } else {
            Err(fields)
        }
    }
}

} // verus!
