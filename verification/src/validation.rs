//! Input validation: single-constraint validator primitives, the structured
//! field error they produce, and the accumulator that collects every failure
//! of one validation pass instead of stopping at the first.

use vstd::prelude::*;
use vstd::string::StringSliceAdditionalSpecFns;
use vstd::utf8::is_ascii_chars;

use crate::text::char_is_alphanumeric;
use crate::text::char_is_lowercase;
use crate::text::char_is_uppercase;
use crate::text::contains_seq;
use crate::text::contains_substr;
use crate::text::dec_str;
use crate::text::i32_to_dec;
use crate::text::int_str;
use crate::text::is_alphanumeric_char;
use crate::text::is_ascii_digit_char;
use crate::text::is_lowercase_char;
use crate::text::is_uppercase_char;
use crate::text::spec_is_ascii_digit;
use crate::text::trim_spec;
use crate::text::trim_str;
use crate::text::u64_to_dec;

verus! {

/// Mathematical model of a [`ValidationError`].
pub struct ValidationErrorV {
    pub message: Seq<char>,
    pub field: Option<Seq<char>>,
    pub code: Seq<char>,
}

/// One failed constraint: a human message, the offending input field when one
/// is known, and a machine-readable constraint identifier.
#[derive(Debug, Clone)]
pub struct ValidationError {
    /// Human-readable error message.
    pub message: String,
    /// Field that failed validation, when known.
    pub field: Option<String>,
    /// Machine-readable constraint identifier.
    pub code: String,
}

impl View for ValidationError {
    type V = ValidationErrorV;

    open spec fn view(&self) -> ValidationErrorV {
        ValidationErrorV {
            message: self.message@,
            field: match self.field {
                Some(f) => Some(f@),
                None => None,
            },
            code: self.code@,
        }
    }
}

impl DeepView for ValidationError {
    type V = ValidationErrorV;

    open spec fn deep_view(&self) -> ValidationErrorV {
        self.view()
    }
}

impl ValidationError {
    /// Create a validation error without a field.
    pub fn new(message: &str, code: &str) -> (r: Self)
        ensures
            r@ == (ValidationErrorV { message: message@, field: None, code: code@ }),
    {
        Self { message: message.to_owned(), field: None, code: code.to_owned() }
    }

    /// Create a validation error attached to a field.
    pub fn with_field(message: &str, field: &str, code: &str) -> (r: Self)
        ensures
            r@ == (ValidationErrorV { message: message@, field: Some(field@), code: code@ }),
    {
        Self { message: message.to_owned(), field: Some(field.to_owned()), code: code.to_owned() }
    }
}

/// The ordered failures of one validation pass; empty means the pass
/// succeeded.
#[derive(Debug, Clone)]
pub struct ValidationErrors {
    /// The failures, in the order the validators ran.
    pub errors: Vec<ValidationError>,
}

impl View for ValidationErrors {
    type V = Seq<ValidationErrorV>;

    open spec fn view(&self) -> Seq<ValidationErrorV> {
        self.errors.deep_view()
    }
}

impl ValidationErrors {
    /// Create an empty collection.
    pub fn new() -> (r: Self)
        ensures
            r@ =~= Seq::<ValidationErrorV>::empty(),
    {
        Self { errors: Vec::new() }
    }

    /// Record one failure at the end of the list.
    pub fn add(&mut self, error: ValidationError)
        ensures
            final(self)@ =~= old(self)@.push(error@),
    {
        self.errors.push(error);
    }

    /// Record one failure built from its parts.
    pub fn add_error(&mut self, message: &str, field: &str, code: &str)
        ensures
            final(self)@ =~= old(self)@.push(
                ValidationErrorV { message: message@, field: Some(field@), code: code@ },
            ),
    {
        self.add(ValidationError::with_field(message, field, code));
    }

    /// Whether any validator failed.
    pub fn has_errors(&self) -> (r: bool)
        ensures
            r == (self@.len() != 0),
    {
        self.errors.len() != 0
    }

    /// The first failure, when there is one.
    pub fn first(&self) -> (r: Option<&ValidationError>)
        ensures
            match r {
                Some(e) => self@.len() != 0 && e@ == self@[0],
                None => self@.len() == 0,
            },
    {
        if self.errors.len() != 0 {
            Some(&self.errors[0])
        } else {
            None
        }
    }

    /// Group the failures by field: each key maps to the messages recorded
    /// under it, in order; failures without a field are grouped under
    /// `_general`.
    pub fn to_field_map(&self) -> (m: FieldMap)
        ensures
            spec_keys_unique(m@),
            spec_entries_group(m@, self@),
            spec_all_keys_present(m@, self@),
    {
        let mut entries: Vec<(String, Vec<String>)> = Vec::new();
        let n = self.errors.len();
        let mut j: usize = 0;
        while j < n
            invariant
                n == self.errors@.len(),
                self@.len() == n,
                j <= n,
                spec_keys_unique(entries.deep_view()),
                spec_entries_group(entries.deep_view(), self@.subrange(0, j as int)),
                spec_all_keys_present(entries.deep_view(), self@.subrange(0, j as int)),
            decreases n - j,
        {
            let e = &self.errors[j];
            proof {
                assert(e@ == self@[j as int]);
            }
            let key: String = match &e.field {
                Some(f) => f.clone(),
                None => "_general".to_owned(),
            };
            let message = e.message.clone();
            let ghost msg = message@;
            let ghost prefix = self@.subrange(0, j as int);
            let ghost next = self@.subrange(0, j as int + 1);
            let ghost v0 = entries@;
            let ghost ev0 = entries.deep_view();
            proof {
                assert(next.drop_last() =~= prefix);
                assert(next.last() == self@[j as int]);
                assert(key@ == spec_field_key(self@[j as int]));
            }
            match find_entry(&entries, &key) {
                Some(i) => {
                    let mut pair = entries.remove(i);
                    let ghost p0 = pair;
                    pair.1.push(message);
                    let ghost p1 = pair;
                    entries.insert(i, pair);
                    proof {
                        v0.remove_ensures(i as int);
                        v0.remove(i as int).insert_ensures(i as int, p1);
                        let ev1 = entries.deep_view();
                        assert forall|t: int| 0 <= t < ev1.len() implies #[trigger] ev1[t] == (
                        if t == i as int {
                            (ev0[i as int].0, ev0[i as int].1.push(msg))
                        } else {
                            ev0[t]
                        }) by {
                            assert(ev1[t] == entries@[t].deep_view());
                            assert(ev0[t] == v0[t].deep_view());
                            if t == i as int {
                                assert(entries@[t] == p1);
                                assert(p1.0 == p0.0 && p1.1@ == p0.1@.push(
                                    p1.1@[p1.1@.len() - 1],
                                ));
                                assert(p1.1.deep_view() =~= p0.1.deep_view().push(msg));
                            } else {
                                assert(entries@[t] == v0[t]);
                            }
                        }
                        assert(ev1.len() == ev0.len());
                        assert(ev0[i as int].0 == key@);
                        assert(spec_keys_unique(ev1));
                        assert forall|t: int| 0 <= t < ev1.len() implies (#[trigger] ev1[t]).1
                            == spec_messages_for(next, ev1[t].0) && ev1[t].1.len() != 0 by {
                            if t == i as int {
                                assert(spec_messages_for(next, key@) == spec_messages_for(
                                    prefix,
                                    key@,
                                ) + seq![msg]);
                                assert(ev0[t].1 == spec_messages_for(prefix, key@));
                                assert(ev1[t].1 =~= spec_messages_for(next, key@));
                            } else {
                                assert(ev0[t].0 != key@);
                                assert(spec_messages_for(next, ev0[t].0) =~= spec_messages_for(
                                    prefix,
                                    ev0[t].0,
                                ));
                            }
                        }
                        assert forall|t: int| 0 <= t < next.len() implies spec_has_key(
                            ev1,
                            spec_field_key(#[trigger] next[t]),
                        ) by {
                            if t < j {
                                assert(next[t] == prefix[t]);
                                assert(spec_has_key(ev0, spec_field_key(prefix[t])));
                                let w = choose|w: int|
                                    0 <= w < ev0.len() && #[trigger] ev0[w].0 == spec_field_key(
                                        prefix[t],
                                    );
                                assert(ev1[w].0 == spec_field_key(prefix[t]));
                            } else {
                                assert(ev1[i as int].0 == key@);
                            }
                        }
                    }
                },
                None => {
                    let mut msgs: Vec<String> = Vec::new();
                    msgs.push(message);
                    entries.push((key, msgs));
                    proof {
                        let ev1 = entries.deep_view();
                        assert forall|t: int| 0 <= t < ev0.len() implies #[trigger] ev1[t]
                            == ev0[t] by {
                            assert(ev1[t] == entries@[t].deep_view());
                            assert(entries@[t] == v0[t]);
                        }
                        assert(ev1.len() == ev0.len() + 1);
                        assert(ev1[ev0.len() as int] == entries@[ev0.len() as int].deep_view());
                        assert(ev1[ev0.len() as int].0 == key@);
                        assert(ev1[ev0.len() as int].1 =~= seq![msg]);
                        assert(spec_keys_unique(ev1));
                        assert forall|w: int| 0 <= w < prefix.len() implies spec_field_key(
                            #[trigger] prefix[w],
                        ) != key@ by {
                            if spec_field_key(prefix[w]) == key@ {
                                assert(spec_has_key(ev0, key@));
                            }
                        }
                        lemma_messages_for_absent_key(prefix, key@);
                        assert forall|t: int| 0 <= t < ev1.len() implies (#[trigger] ev1[t]).1
                            == spec_messages_for(next, ev1[t].0) && ev1[t].1.len() != 0 by {
                            if t == ev0.len() as int {
                                assert(spec_messages_for(next, key@) == spec_messages_for(
                                    prefix,
                                    key@,
                                ) + seq![msg]);
                                assert(ev1[t].1 =~= spec_messages_for(next, key@));
                            } else {
                                assert(ev0[t].0 != key@);
                                assert(spec_messages_for(next, ev0[t].0) =~= spec_messages_for(
                                    prefix,
                                    ev0[t].0,
                                ));
                            }
                        }
                        assert forall|t: int| 0 <= t < next.len() implies spec_has_key(
                            ev1,
                            spec_field_key(#[trigger] next[t]),
                        ) by {
                            if t < j {
                                assert(next[t] == prefix[t]);
                                assert(spec_has_key(ev0, spec_field_key(prefix[t])));
                                let w = choose|w: int|
                                    0 <= w < ev0.len() && #[trigger] ev0[w].0 == spec_field_key(
                                        prefix[t],
                                    );
                                assert(ev1[w].0 == spec_field_key(prefix[t]));
                            } else {
                                assert(ev1[ev0.len() as int].0 == key@);
                            }
                        }
                    }
                },
            }
            j += 1;
        }
        proof {
            assert(self@.subrange(0, n as int) =~= self@);
        }
        FieldMap { entries }
    }
}

impl Default for ValidationErrors {
    fn default() -> (r: Self)
        ensures
            r@ =~= Seq::<ValidationErrorV>::empty(),
    {
        Self::new()
    }
}

/// Result of a validation pass: the success value, or every failure.
pub type ValidationResult<T> = Result<T, ValidationErrors>;

/// The key under which a failure is grouped: its field name, or `_general`
/// when none was set.
pub open spec fn spec_field_key(e: ValidationErrorV) -> Seq<char> {
    match e.field {
        Some(f) => f,
        None => "_general"@,
    }
}

/// The messages of the failures grouped under `key`, in order.
pub open spec fn spec_messages_for(errs: Seq<ValidationErrorV>, key: Seq<char>) -> Seq<Seq<char>>
    decreases errs.len(),
{
    if errs.len() == 0 {
        Seq::empty()
    } else {
        spec_messages_for(errs.drop_last(), key) + if spec_field_key(errs.last()) == key {
            seq![errs.last().message]
        } else {
            Seq::empty()
        }
    }
}

/// Whether `key` appears in the entry list `m`.
pub open spec fn spec_has_key(m: Seq<(Seq<char>, Seq<Seq<char>>)>, key: Seq<char>) -> bool {
    exists|i: int| 0 <= i < m.len() && #[trigger] m[i].0 == key
}

/// Whether no key appears twice in the entry list `m`.
pub open spec fn spec_keys_unique(m: Seq<(Seq<char>, Seq<Seq<char>>)>) -> bool {
    forall|i: int, j: int| #![trigger m[i], m[j]] 0 <= i < j < m.len() ==> m[i].0 != m[j].0
}

/// Whether each entry of `m` holds exactly the messages that `errs` records
/// under its key, and no entry is empty.
pub open spec fn spec_entries_group(
    m: Seq<(Seq<char>, Seq<Seq<char>>)>,
    errs: Seq<ValidationErrorV>,
) -> bool {
    forall|i: int|
        0 <= i < m.len() ==> (#[trigger] m[i]).1 == spec_messages_for(errs, m[i].0) && m[i].1.len()
            != 0
}

/// Whether the key of every failure in `errs` appears in `m`.
pub open spec fn spec_all_keys_present(
    m: Seq<(Seq<char>, Seq<Seq<char>>)>,
    errs: Seq<ValidationErrorV>,
) -> bool {
    forall|j: int| 0 <= j < errs.len() ==> spec_has_key(m, spec_field_key(#[trigger] errs[j]))
}

/// A key under which no failure is grouped has no messages.
proof fn lemma_messages_for_absent_key(errs: Seq<ValidationErrorV>, key: Seq<char>)
    requires
        forall|j: int| 0 <= j < errs.len() ==> spec_field_key(#[trigger] errs[j]) != key,
    ensures
        spec_messages_for(errs, key) == Seq::<Seq<char>>::empty(),
    decreases errs.len(),
{
    if errs.len() != 0 {
        lemma_messages_for_absent_key(errs.drop_last(), key);
        assert(errs.last() == errs[errs.len() - 1]);
        assert(spec_messages_for(errs, key) =~= Seq::<Seq<char>>::empty());
    } else {
        assert(spec_messages_for(errs, key) =~= Seq::<Seq<char>>::empty());
    }
}

/// A mapping from field name to the messages recorded for that field, kept
/// as an association list with unique keys.
#[derive(Debug, Clone)]
pub struct FieldMap {
    entries: Vec<(String, Vec<String>)>,
}

impl View for FieldMap {
    type V = Seq<(Seq<char>, Seq<Seq<char>>)>;

    closed spec fn view(&self) -> Seq<(Seq<char>, Seq<Seq<char>>)> {
        self.entries.deep_view()
    }
}

/// Index of the entry for `key` in `entries`, if present.
fn find_entry(entries: &Vec<(String, Vec<String>)>, key: &String) -> (r: Option<usize>)
    ensures
        match r {
            Some(i) => i < entries.deep_view().len() && entries.deep_view()[i as int].0 == key@,
            None => forall|i: int|
                0 <= i < entries.deep_view().len() ==> (#[trigger] entries.deep_view()[i]).0
                    != key@,
        },
{
    let n = entries.len();
    let mut i: usize = 0;
    while i < n
        invariant
            n == entries@.len(),
            entries.deep_view().len() == entries@.len(),
            i <= n,
            forall|t: int|
                0 <= t < i ==> (#[trigger] entries.deep_view()[t]).0 != key@,
            forall|t: int|
                0 <= t < entries@.len() ==> (#[trigger] entries.deep_view()[t]).0 == entries@[t].0@,
        decreases n - i,
    {
        if entries[i].0 == *key {
            assert(entries.deep_view()[i as int].0 == key@);
            return Some(i);
        }
        i += 1;
    }
    None
}

impl FieldMap {
    /// Whether any failure was recorded under `key`.
    pub fn contains_key(&self, key: &str) -> (r: bool)
        ensures
            r == spec_has_key(self@, key@),
    {
        let key_string = key.to_owned();
        match find_entry(&self.entries, &key_string) {
            Some(i) => {
                assert(spec_has_key(self@, key@));
                true
            },
            None => {
                assert(!spec_has_key(self@, key@));
                false
            },
        }
    }

    /// The messages recorded under `key`, if any.
    pub fn get(&self, key: &str) -> (r: Option<&Vec<String>>)
        ensures
            match r {
                Some(v) => exists|i: int|
                    0 <= i < self@.len() && #[trigger] self@[i] == (key@, v.deep_view()),
                None => !spec_has_key(self@, key@),
            },
    {
        let key_string = key.to_owned();
        match find_entry(&self.entries, &key_string) {
            Some(i) => {
                let v = &self.entries[i].1;
                assert(self@[i as int] == (key@, v.deep_view()));
                Some(v)
            },
            None => None,
        }
    }

    /// The number of distinct keys.
    pub fn len(&self) -> (r: usize)
        ensures
            r == self@.len(),
    {
        self.entries.len()
    }
}

/// Whether an email address passes the deliberately coarse syntactic check:
/// an `@` somewhere but not first or last, a character count strictly between
/// 3 and 255, and only ASCII characters. This is not an RFC 5322 parser.
pub open spec fn spec_is_valid_email(s: Seq<char>) -> bool {
    &&& contains_seq(s, "@"@)
    &&& 3 < s.len() < 255
    &&& s[0] != '@'
    &&& s[s.len() - 1] != '@'
    &&& is_ascii_chars(s)
}

/// Check if an email address is valid (basic validation).
pub fn is_valid_email(email: &str) -> (r: bool)
    ensures
        r == spec_is_valid_email(email@),
{
    let len = email.unicode_len();
    if len <= 3 || len >= 255 {
        return false;
    }
    if email.get_char(0) == '@' {
        return false;
    }
    if email.get_char(len - 1) == '@' {
        return false;
    }
    if !email.is_ascii() {
        return false;
    }
    contains_substr(email, "@")
}

/// Whether a username is well-formed: 3 to 50 bytes, the first character
/// alphanumeric, the rest alphanumeric, `-`, or `_`.
pub open spec fn spec_is_valid_username(s: &str) -> bool {
    &&& 3 <= s.spec_bytes().len() <= 50
    &&& char_is_alphanumeric(s@[0])
    &&& forall|i: int|
        0 <= i < s@.len() ==> char_is_alphanumeric(#[trigger] s@[i]) || s@[i] == '-' || s@[i]
            == '_'
}

/// Check if a username is valid.
pub fn is_valid_username(username: &str) -> (r: bool)
    ensures
        r == spec_is_valid_username(username),
{
    if username.as_bytes().len() < 3 || username.as_bytes().len() > 50 {
        return false;
    }
    proof {
        assert(username@.len() != 0) by {
            if username@.len() == 0 {
                assert(username.spec_bytes() =~= Seq::<u8>::empty());
            }
        }
    }
    let len = username.unicode_len();
    if !is_alphanumeric_char(username.get_char(0)) {
        return false;
    }
    let mut i: usize = 0;
    while i < len
        invariant
            len == username@.len(),
            i <= len,
            forall|t: int|
                0 <= t < i ==> char_is_alphanumeric(#[trigger] username@[t]) || username@[t] == '-'
                    || username@[t] == '_',
        decreases len - i,
    {
        let c = username.get_char(i);
        if !(is_alphanumeric_char(c) || c == '-' || c == '_') {
            return false;
        }
        i += 1;
    }
    true
}

/// Whether a tournament name is well-formed: 3 to 100 bytes and not only
/// whitespace.
pub open spec fn spec_is_valid_tournament_name(s: &str) -> bool {
    &&& 3 <= s.spec_bytes().len() <= 100
    &&& trim_spec(s@).len() != 0
}

/// Check if a tournament name is valid.
pub fn is_valid_tournament_name(name: &str) -> (r: bool)
    ensures
        r == spec_is_valid_tournament_name(name),
{
    if name.as_bytes().len() < 3 || name.as_bytes().len() > 100 {
        return false;
    }
    !trim_str(name).is_empty()
}

/// Whether a password meets the minimum requirements: 8 to 128 bytes with
/// at least one lowercase letter, one uppercase letter, and one ASCII digit.
pub open spec fn spec_is_valid_password(s: &str) -> bool {
    &&& 8 <= s.spec_bytes().len() <= 128
    &&& exists|i: int| 0 <= i < s@.len() && char_is_lowercase(#[trigger] s@[i])
    &&& exists|i: int| 0 <= i < s@.len() && char_is_uppercase(#[trigger] s@[i])
    &&& exists|i: int| 0 <= i < s@.len() && spec_is_ascii_digit(#[trigger] s@[i])
}

/// Check if a password meets minimum requirements.
pub fn is_valid_password(password: &str) -> (r: bool)
    ensures
        r == spec_is_valid_password(password),
{
    if password.as_bytes().len() < 8 || password.as_bytes().len() > 128 {
        return false;
    }
    let len = password.unicode_len();
    let mut has_lowercase = false;
    let mut has_uppercase = false;
    let mut has_digit = false;
    let mut i: usize = 0;
    while i < len
        invariant
            len == password@.len(),
            i <= len,
            has_lowercase == exists|t: int|
                0 <= t < i && char_is_lowercase(#[trigger] password@[t]),
            has_uppercase == exists|t: int|
                0 <= t < i && char_is_uppercase(#[trigger] password@[t]),
            has_digit == exists|t: int| 0 <= t < i && spec_is_ascii_digit(#[trigger] password@[t]),
        decreases len - i,
    {
        let c = password.get_char(i);
        if is_lowercase_char(c) {
            has_lowercase = true;
        }
        if is_uppercase_char(c) {
            has_uppercase = true;
        }
        if is_ascii_digit_char(c) {
            has_digit = true;
        }
        i += 1;
    }
    has_lowercase && has_uppercase && has_digit
}

/// Whether one `(name, value)` entry counts as missing: no value, or a value
/// that is only whitespace.
pub open spec fn spec_field_missing(value: Option<&str>) -> bool {
    match value {
        Some(v) => trim_spec(v@).len() == 0,
        None => true,
    }
}

/// The names of the missing entries, in order.
pub open spec fn spec_missing_names(fields: Seq<(&str, Option<&str>)>) -> Seq<Seq<char>>
    decreases fields.len(),
{
    if fields.len() == 0 {
        Seq::empty()
    } else {
        spec_missing_names(fields.drop_last()) + if spec_field_missing(fields.last().1) {
            seq![fields.last().0@]
        } else {
            Seq::empty()
        }
    }
}

/// Validate that required fields are present: returns the names of every
/// missing field, in the order given.
pub fn validate_required_fields(fields: &[(&str, Option<&str>)]) -> (r: Result<(), Vec<String>>)
    ensures
        r is Ok <==> spec_missing_names(fields@).len() == 0,
        r matches Err(names) ==> names.deep_view() == spec_missing_names(fields@),
{
    let mut missing: Vec<String> = Vec::new();
    let n = fields.len();
    let mut i: usize = 0;
    while i < n
        invariant
            n == fields@.len(),
            i <= n,
            missing.deep_view() =~= spec_missing_names(fields@.subrange(0, i as int)),
        decreases n - i,
    {
        let (name, value) = fields[i];
        let is_missing = match value {
            Some(v) => trim_str(v).is_empty(),
            None => true,
        };
        if is_missing {
            missing.push(name.to_owned());
        }
        proof {
            assert(fields@.subrange(0, i + 1).drop_last() =~= fields@.subrange(0, i as int));
            assert(fields@.subrange(0, i + 1).last() == fields@[i as int]);
            assert(missing.deep_view() =~= spec_missing_names(fields@.subrange(0, i + 1)));
        }
        i += 1;
    }
    proof {
        assert(fields@.subrange(0, n as int) =~= fields@);
    }
    if missing.len() == 0 {
        Ok(())
    } else {
        Err(missing)
    }
}

/// Validate a required field: succeeds with the trimmed value exactly when a
/// value is present and not only whitespace.
pub fn required<'a>(value: Option<&'a str>, field: &str) -> (r: Result<&'a str, ValidationError>)
    ensures
        r is Ok <==> (value matches Some(v) && trim_spec(v@).len() != 0),
        r matches Ok(t) ==> (value matches Some(v) && t@ == trim_spec(v@)),
        r matches Err(e) ==> e@ == (ValidationErrorV {
            message: field@ + " is required"@,
            field: Some(field@),
            code: "REQUIRED"@,
        }),
{
    match value {
        Some(v) => {
            let t = trim_str(v);
            if !t.is_empty() {
                return Ok(t);
            }
        },
        None => {},
    }
    let mut message = field.to_owned();
    message.append(" is required");
    Err(ValidationError::with_field(message.as_str(), field, "REQUIRED"))
}

/// Validate string length: succeeds exactly when the character count lies in
/// `[min, max]`, both bounds inclusive.
pub fn length(value: &str, min: usize, max: usize, field: &str) -> (r: Result<
    (),
    ValidationError,
>)
    ensures
        r is Ok <==> min <= value@.len() <= max,
        r matches Err(e) ==> e@ == (ValidationErrorV {
            message: field@ + " must be between "@ + dec_str(min as nat) + " and "@ + dec_str(
                max as nat,
            ) + " characters"@,
            field: Some(field@),
            code: "LENGTH"@,
        }),
{
    let len = value.unicode_len();
    if min <= len && len <= max {
        Ok(())
    } else {
        let mut message = field.to_owned();
        message.append(" must be between ");
        message.append(u64_to_dec(min as u64).as_str());
        message.append(" and ");
        message.append(u64_to_dec(max as u64).as_str());
        message.append(" characters");
        Err(ValidationError::with_field(message.as_str(), field, "LENGTH"))
    }
}

/// Validate email format.
pub fn email(value: &str, field: &str) -> (r: Result<(), ValidationError>)
    ensures
        r is Ok <==> spec_is_valid_email(value@),
        r matches Err(e) ==> e@ == (ValidationErrorV {
            message: "Invalid email format"@,
            field: Some(field@),
            code: "INVALID_EMAIL"@,
        }),
{
    if is_valid_email(value) {
        Ok(())
    } else {
        Err(ValidationError::with_field("Invalid email format", field, "INVALID_EMAIL"))
    }
}

/// Validate username format.
pub fn username(value: &str, field: &str) -> (r: Result<(), ValidationError>)
    ensures
        r is Ok <==> spec_is_valid_username(value),
        r matches Err(e) ==> e@ == (ValidationErrorV {
            message: "Username must be 3-50 characters, start with alphanumeric, and contain only alphanumeric, hyphens, or underscores"@,
            field: Some(field@),
            code: "INVALID_USERNAME"@,
        }),
{
    if is_valid_username(value) {
        Ok(())
    } else {
        Err(
            ValidationError::with_field(
                "Username must be 3-50 characters, start with alphanumeric, and contain only alphanumeric, hyphens, or underscores",
                field,
                "INVALID_USERNAME",
            ),
        )
    }
}

/// Validate password strength.
pub fn password(value: &str, field: &str) -> (r: Result<(), ValidationError>)
    ensures
        r is Ok <==> spec_is_valid_password(value),
        r matches Err(e) ==> e@ == (ValidationErrorV {
            message: "Password must be 8-128 characters with at least one lowercase, uppercase, and digit"@,
            field: Some(field@),
            code: "WEAK_PASSWORD"@,
        }),
{
    if is_valid_password(value) {
        Ok(())
    } else {
        Err(
            ValidationError::with_field(
                "Password must be 8-128 characters with at least one lowercase, uppercase, and digit",
                field,
                "WEAK_PASSWORD",
            ),
        )
    }
}

/// Validate tournament name.
pub fn tournament_name(value: &str, field: &str) -> (r: Result<(), ValidationError>)
    ensures
        r is Ok <==> spec_is_valid_tournament_name(value),
        r matches Err(e) ==> e@ == (ValidationErrorV {
            message: "Tournament name must be 3-100 characters and not empty"@,
            field: Some(field@),
            code: "INVALID_TOURNAMENT_NAME"@,
        }),
{
    if is_valid_tournament_name(value) {
        Ok(())
    } else {
        Err(
            ValidationError::with_field(
                "Tournament name must be 3-100 characters and not empty",
                field,
                "INVALID_TOURNAMENT_NAME",
            ),
        )
    }
}

/// The number of `-` characters in `s`.
pub open spec fn dash_count(s: Seq<char>) -> int
    decreases s.len(),
{
    if s.len() == 0 {
        0
    } else {
        dash_count(s.drop_last()) + if s.last() == '-' {
            1int
        } else {
            0int
        }
    }
}

/// Validate UUID shape: 36 characters of which exactly four are `-`.
pub fn uuid_format(value: &str, field: &str) -> (r: Result<(), ValidationError>)
    ensures
        r is Ok <==> (value.spec_bytes().len() == 36 && dash_count(value@) == 4),
        r matches Err(e) ==> e@ == (ValidationErrorV {
            message: "Invalid UUID format"@,
            field: Some(field@),
            code: "INVALID_UUID"@,
        }),
{
    let mut ok = value.as_bytes().len() == 36;
    let len = value.unicode_len();
    if ok {
        let mut dashes: usize = 0;
        let mut i: usize = 0;
        while i < len
            invariant
                len == value@.len(),
                i <= len,
                dashes <= i,
                dashes == dash_count(value@.subrange(0, i as int)),
            decreases len - i,
        {
            if value.get_char(i) == '-' {
                dashes += 1;
            }
            proof {
                assert(value@.subrange(0, i + 1).drop_last() =~= value@.subrange(0, i as int));
                assert(value@.subrange(0, i + 1).last() == value@[i as int]);
            }
            i += 1;
        }
        proof {
            assert(value@.subrange(0, len as int) =~= value@);
        }
        ok = dashes == 4;
    }
    if ok {
        Ok(())
    } else {
        Err(ValidationError::with_field("Invalid UUID format", field, "INVALID_UUID"))
    }
}

/// Validate that an integer is strictly positive.
pub fn positive_integer(value: i32, field: &str) -> (r: Result<(), ValidationError>)
    ensures
        r is Ok <==> value > 0,
        r matches Err(e) ==> e@ == (ValidationErrorV {
            message: field@ + " must be a positive integer"@,
            field: Some(field@),
            code: "NOT_POSITIVE"@,
        }),
{
    if value > 0 {
        Ok(())
    } else {
        let mut message = field.to_owned();
        message.append(" must be a positive integer");
        Err(ValidationError::with_field(message.as_str(), field, "NOT_POSITIVE"))
    }
}

/// Validate that an integer lies in `[min, max]`, both bounds inclusive.
pub fn range(value: i32, min: i32, max: i32, field: &str) -> (r: Result<(), ValidationError>)
    ensures
        r is Ok <==> min <= value <= max,
        r matches Err(e) ==> e@ == (ValidationErrorV {
            message: field@ + " must be between "@ + int_str(min as int) + " and "@ + int_str(
                max as int,
            ),
            field: Some(field@),
            code: "OUT_OF_RANGE"@,
        }),
{
    if min <= value && value <= max {
        Ok(())
    } else {
        let mut message = field.to_owned();
        message.append(" must be between ");
        message.append(i32_to_dec(min).as_str());
        message.append(" and ");
        message.append(i32_to_dec(max).as_str());
        Err(ValidationError::with_field(message.as_str(), field, "OUT_OF_RANGE"))
    }
}

/// Accumulator for one validation pass: records every failure handed to it
/// and keeps their order.
pub struct ValidationBuilder {
    errors: ValidationErrors,
}

impl View for ValidationBuilder {
    type V = Seq<ValidationErrorV>;

    closed spec fn view(&self) -> Seq<ValidationErrorV> {
        self.errors@
    }
}

impl ValidationBuilder {
    /// Create a builder with no recorded failures.
    pub fn new() -> (r: Self)
        ensures
            r@ =~= Seq::<ValidationErrorV>::empty(),
    {
        Self { errors: ValidationErrors::new() }
    }

    /// Record the outcome of one validator call: a failure is appended, a
    /// success leaves the collection as it was. Every outcome is recorded;
    /// nothing short-circuits.
    pub fn validate(self, outcome: Result<(), ValidationError>) -> (r: Self)
        ensures
            outcome is Ok ==> r@ == self@,
            outcome matches Err(e) ==> r@ == self@.push(e@),
    {
        let mut next = self;
        match outcome {
            Ok(()) => {},
            Err(e) => {
                next.errors.add(e);
            },
        }
        next
    }

    /// Yield the success value when no validator failed, else the complete
    /// ordered failure list.
    pub fn build<T>(self, success_value: T) -> (r: ValidationResult<T>)
        ensures
            self@.len() == 0 ==> (r matches Ok(v) && v == success_value),
            self@.len() != 0 ==> (r matches Err(es) && es@ == self@),
    {
        if self.errors.has_errors() {
            Err(self.errors)
        } else {
            Ok(success_value)
        }
    }

    /// Like [`Self::build`], ending in unit.
    pub fn build_unit(self) -> (r: ValidationResult<()>)
        ensures
            self@.len() == 0 ==> r is Ok,
            self@.len() != 0 ==> (r matches Err(es) && es@ == self@),
    {
        self.build(())
    }
}

impl Default for ValidationBuilder {
    fn default() -> (r: Self)
        ensures
            r@ =~= Seq::<ValidationErrorV>::empty(),
    {
        Self::new()
    }
}

/// The failures that a sequence of validator outcomes leaves in the
/// accumulator: exactly the failing outcomes, in order.
pub open spec fn collected_errors(outcomes: Seq<Result<(), ValidationError>>) -> Seq<
    ValidationErrorV,
>
    decreases outcomes.len(),
{
    if outcomes.len() == 0 {
        Seq::empty()
    } else {
        collected_errors(outcomes.drop_last()) + match outcomes.last() {
            Ok(_) => Seq::<ValidationErrorV>::empty(),
            Err(e) => seq![e@],
        }
    }
}

/// The accumulator law: over any sequence of validator outcomes, the
/// collected failure list has exactly one entry per failing outcome and
/// keeps their order; successes leave no trace.
pub proof fn lemma_collected_errors_accumulate(outcomes: Seq<Result<(), ValidationError>>)
    ensures
        collected_errors(outcomes) == outcomes.filter(|o: Result<(), ValidationError>| o is Err)
            .map_values(|o: Result<(), ValidationError>| o->Err_0@),
        collected_errors(outcomes).len() == outcomes.filter(
            |o: Result<(), ValidationError>| o is Err,
        ).len(),
    decreases outcomes.len(),
{
    reveal(Seq::filter);
    let is_err = |o: Result<(), ValidationError>| o is Err;
    let to_view = |o: Result<(), ValidationError>| o->Err_0@;
    if outcomes.len() == 0 {
        assert(outcomes.filter(is_err) =~= Seq::empty());
        assert(collected_errors(outcomes) =~= outcomes.filter(is_err).map_values(to_view));
    } else {
        let prefix = outcomes.drop_last();
        lemma_collected_errors_accumulate(prefix);
        assert(collected_errors(outcomes) =~= outcomes.filter(is_err).map_values(to_view));
    }
}

} // verus!
