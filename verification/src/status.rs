//! The status of a device and of a configuration, as the datastore writes them.
use crate::text::owned;
use vstd::prelude::*;

verus! {

/// The lifecycle status of a device.
#[derive(PartialEq, Eq, Structural, Clone, Copy, Debug)]
pub enum DeviceStatus {
    DsDraft,
    DsActive,
    DsArchived,
    DsDeleted,
    DsUnknown,
}

/// The status of an uploaded configuration.
#[derive(PartialEq, Eq, Structural, Clone, Copy, Debug)]
pub enum ConfigStatus {
    CsDraft,
    CsApplied,
    CsUndefined,
}

/// What `str::to_lowercase` gives for a text; named, not described.
pub uninterp spec fn lowercase(s: Seq<char>) -> Seq<char>;

/// Whether `prefix` begins `s`.
pub open spec fn has_prefix(s: Seq<char>, prefix: Seq<char>) -> bool {
    prefix.len() <= s.len() && s.take(prefix.len() as int) == prefix
}

/// Whether every character of a text is ASCII.
pub open spec fn is_ascii_text(s: Seq<char>) -> bool {
    forall|i: int| 0 <= i < s.len() ==> (#[trigger] s[i] as int) < 128
}

/// Whether `lower` is the ASCII lowercase of `c`: `A` to `Z` become `a` to
/// `z`, every other character stays.
pub open spec fn is_ascii_lower_of(c: char, lower: char) -> bool {
    if 'A' <= c && c <= 'Z' {
        lower as int == c as int + 32
    } else {
        lower == c
    }
}

/// Whether `lower` is the text `s` with each character lowercased as ASCII.
pub open spec fn is_ascii_lowercase_of(s: Seq<char>, lower: Seq<char>) -> bool {
    &&& lower.len() == s.len()
    &&& forall|i: int| 0 <= i < s.len() ==> is_ascii_lower_of(#[trigger] s[i], lower[i])
}

/// `str::to_lowercase`: the lowercase equivalent of the text, by Unicode's
/// `Lowercase` property. Its result is named. Stated beside the name: on a
/// text that is all ASCII, where Unicode's lowercase mapping maps `A` to `Z`
/// to `a` to `z` and leaves every other ASCII character as it is, the result
/// is that text lowercased character by character.
#[verifier::external_body]
pub(crate) fn to_lowercase(s: &str) -> (r: String)
    ensures
        r@ == lowercase(s@),
        is_ascii_text(s@) ==> is_ascii_lowercase_of(s@, r@),
{
    s.to_lowercase()
}

/// Whether `prefix` begins `s`, as `str::starts_with` answers for a text.
pub fn starts_with(s: &str, prefix: &str) -> (r: bool)
    ensures
        r == has_prefix(s@, prefix@),
{
    let n = prefix.unicode_len();
    let m = s.unicode_len();
    if n > m {
        return false;
    }
    let mut i: usize = 0;
    while i < n
        invariant
            n == prefix@.len(),
            m == s@.len(),
            n <= m,
            i <= n,
            forall|j: int| 0 <= j < i ==> #[trigger] s@[j] == prefix@[j],
        decreases n - i,
    {
        if s.get_char(i) != prefix.get_char(i) {
            assert(s@.take(n as int)[i as int] != prefix@[i as int]);
            return false;
        }
        i = i + 1;
    }
    assert(s@.take(n as int) =~= prefix@);
    true
}

/// The status that a lowercase status text begins with.
pub open spec fn status_of_lowercase(l: Seq<char>) -> DeviceStatus {
    if has_prefix(l, "draft"@) {
        DeviceStatus::DsDraft
    } else if has_prefix(l, "active"@) {
        DeviceStatus::DsActive
    } else if has_prefix(l, "archive"@) {
        DeviceStatus::DsArchived
    } else if has_prefix(l, "delete"@) {
        DeviceStatus::DsDeleted
    } else {
        DeviceStatus::DsUnknown
    }
}

/// The status that a text already in lowercase begins with.
pub fn status_from_lowercase(lowercase: &str) -> (r: DeviceStatus)
    ensures
        r == status_of_lowercase(lowercase@),
{
    if starts_with(lowercase, "draft") {
        DeviceStatus::DsDraft
    } else if starts_with(lowercase, "active") {
        DeviceStatus::DsActive
    } else if starts_with(lowercase, "archive") {
        DeviceStatus::DsArchived
    } else if starts_with(lowercase, "delete") {
        DeviceStatus::DsDeleted
    } else {
        DeviceStatus::DsUnknown
    }
}

/// The device status that a status text names, whatever its case.
pub fn map_status_value_to_enum(status: String) -> (r: DeviceStatus)
    ensures
        r == status_of_lowercase(lowercase(status@)),
        is_ascii_text(status@) ==> exists|lower: Seq<char>|
            is_ascii_lowercase_of(status@, lower) && r == status_of_lowercase(lower),
{
    let lower = to_lowercase(status.as_str());
    status_from_lowercase(lower.as_str())
}

/// The text of a configuration status.
pub open spec fn config_status_text(status: ConfigStatus) -> Seq<char> {
    match status {
        ConfigStatus::CsDraft => "Draft"@,
        ConfigStatus::CsApplied => "Applied"@,
        ConfigStatus::CsUndefined => "Undefined"@,
    }
}

pub fn convert_status(status: ConfigStatus) -> (r: String)
    ensures
        r@ == config_status_text(status),
{
    match status {
        ConfigStatus::CsDraft => owned("Draft"),
        ConfigStatus::CsApplied => owned("Applied"),
        ConfigStatus::CsUndefined => owned("Undefined"),
    }
}

/// Distinct configuration statuses have distinct texts.
pub proof fn config_status_text_is_injective(a: ConfigStatus, b: ConfigStatus)
    ensures
        config_status_text(a) == config_status_text(b) ==> a == b,
{
    reveal_strlit("Draft");
    reveal_strlit("Applied");
    reveal_strlit("Undefined");
    if config_status_text(a) == config_status_text(b) && a != b {
        assert(config_status_text(a).len() != config_status_text(b).len()
            || config_status_text(a)[0] != config_status_text(b)[0]);
    }
}

/// A prefix fixes the first characters of a text.
proof fn prefix_chars(l: Seq<char>, p: Seq<char>)
    requires
        has_prefix(l, p),
    ensures
        forall|i: int| 0 <= i < p.len() ==> l[i] == #[trigger] p[i],
{
    assert forall|i: int| 0 <= i < p.len() implies l[i] == #[trigger] p[i] by {
        assert(l.take(p.len() as int)[i] == l[i]);
    }
}

/// The four prefixes exclude each other, so the status that a lowercase text
/// names does not depend on the order in which they are tried.
pub proof fn status_prefixes_decide(l: Seq<char>)
    ensures
        has_prefix(l, "draft"@) ==> status_of_lowercase(l) == DeviceStatus::DsDraft,
        has_prefix(l, "active"@) ==> status_of_lowercase(l) == DeviceStatus::DsActive,
        has_prefix(l, "archive"@) ==> status_of_lowercase(l) == DeviceStatus::DsArchived,
        has_prefix(l, "delete"@) ==> status_of_lowercase(l) == DeviceStatus::DsDeleted,
        !has_prefix(l, "draft"@) && !has_prefix(l, "active"@) && !has_prefix(l, "archive"@)
            && !has_prefix(l, "delete"@) ==> status_of_lowercase(l) == DeviceStatus::DsUnknown,
{
    reveal_strlit("draft");
    reveal_strlit("active");
    reveal_strlit("archive");
    reveal_strlit("delete");
    if has_prefix(l, "draft"@) {
        prefix_chars(l, "draft"@);
        assert(l[0] == "draft"@[0]);
    }
    if has_prefix(l, "active"@) {
        prefix_chars(l, "active"@);
        assert(l[0] == "active"@[0] && l[1] == "active"@[1]);
    }
    if has_prefix(l, "archive"@) {
        prefix_chars(l, "archive"@);
        assert(l[0] == "archive"@[0] && l[1] == "archive"@[1]);
    }
    if has_prefix(l, "delete"@) {
        prefix_chars(l, "delete"@);
        assert(l[0] == "delete"@[0] && l[1] == "delete"@[1]);
    }
    if has_prefix(l, "draft"@) && has_prefix(l, "delete"@) {
        assert(l[1] == "draft"@[1]);
    }
}

} // verus!
