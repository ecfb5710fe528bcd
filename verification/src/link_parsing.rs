//! Parsing of a captured deep link into an admitted intent or a rejection reason.
//!
//! URL parsing itself is done by the `url` crate; what it reports is carried in
//! [`ParsedUrl`], and every admission decision taken from it is verified here.
use crate::deep_link_admission::{
    DeepLinkIntent, DeepLinkReason, canonical_url_view, is_allowed_action,
};
use crate::text::{
    opt_string_view, char_is_control, chars_of, concat_str, find_in_range, first_index_of, is_unicode_control,
    range_contains, range_equals, split_ranges, split_seq, trim, trim_bounds, utf8_len,
    utf8_len_exceeds,
};
use vstd::prelude::*;
use vstd::string::*;

verus! {

/// The parts of a parsed URL that admission reads.
#[derive(Clone, Debug, PartialEq, Eq)]
pub struct ParsedUrl {
    pub scheme: String,
    pub username: String,
    pub password: Option<String>,
    pub host: Option<String>,
    pub port: Option<u16>,
    pub fragment: Option<String>,
    pub path: String,
    pub serialization: String,
}

pub struct ParsedUrlView {
    pub scheme: Seq<char>,
    pub username: Seq<char>,
    pub password: Option<Seq<char>>,
    pub host: Option<Seq<char>>,
    pub port: Option<u16>,
    pub fragment: Option<Seq<char>>,
    pub path: Seq<char>,
    pub serialization: Seq<char>,
}

impl View for ParsedUrl {
    type V = ParsedUrlView;

    open spec fn view(&self) -> ParsedUrlView {
        ParsedUrlView {
            scheme: self.scheme@,
            username: self.username@,
            password: opt_string_view(self.password),
            host: opt_string_view(self.host),
            port: self.port,
            fragment: opt_string_view(self.fragment),
            path: self.path@,
            serialization: self.serialization@,
        }
    }
}

pub open spec fn parsed_view(p: Option<ParsedUrl>) -> Option<ParsedUrlView> {
    match p {
        Some(u) => Some(u@),
        None => None,
    }
}

/// What `url::Url::parse` makes of `input`: `None` when it reports an error,
/// otherwise the scheme, username, password, host, port, fragment, path and
/// serialization of the parsed URL.
pub uninterp spec fn url_parse(input: Seq<char>) -> Option<ParsedUrlView>;

/// Calls `url::Url::parse` and reads `scheme`, `username`, `password`,
/// `host_str`, `port`, `fragment`, `path` and `as_str` of the result.
/// Trusted: the result is named by `url_parse` of the input, which claims only
/// that the same input always parses to the same parts.
#[verifier::external_body]
fn parse_url(input: &str) -> (r: Option<ParsedUrl>)
    ensures
        parsed_view(r) == url_parse(input@),
{
    match url::Url::parse(input) {
        Ok(u) => Some(ParsedUrl {
            scheme: u.scheme().to_owned(),
            username: u.username().to_owned(),
            password: u.password().map(str::to_owned),
            host: u.host_str().map(str::to_owned),
            port: u.port(),
            fragment: u.fragment().map(str::to_owned),
            path: u.path().to_owned(),
            serialization: u.as_str().to_owned(),
        }),
        Err(_) => None,
    }
}

/* ---------------------------------------------------------------------------
 * Specification of admission.
 * ------------------------------------------------------------------------- */

/// Why a raw capture is refused before resolution, if it is.
pub open spec fn preflight_reason(raw: Seq<char>) -> Option<DeepLinkReason> {
    if raw.len() == 0 {
        Some(DeepLinkReason::Empty)
    } else if utf8_len(raw) > 2048 {
        Some(DeepLinkReason::TooLong)
    } else if trim(raw) != raw || exists|i: int| 0 <= i < raw.len() && is_unicode_control(raw[i]) {
        Some(DeepLinkReason::Malformed)
    } else {
        None
    }
}

pub open spec fn has_prefix(s: Seq<char>, p: Seq<char>) -> bool {
    p.len() <= s.len() && s.take(p.len() as int) == p
}

pub open spec fn is_authority_terminator(c: char) -> bool {
    c == '/' || c == '?' || c == '#'
}

pub open spec fn is_first_terminator(s: Seq<char>, i: int) -> bool {
    &&& 0 <= i < s.len()
    &&& is_authority_terminator(s[i])
    &&& forall|j: int| 0 <= j < i ==> !is_authority_terminator(s[j])
}

/// The length of the authority at the start of `s`: up to the first `/`, `?` or `#`.
pub open spec fn authority_len(s: Seq<char>) -> int {
    if exists|i: int| is_first_terminator(s, i) {
        choose|i: int| is_first_terminator(s, i)
    } else {
        s.len() as int
    }
}

/// The authority of a raw `https://` link, read from the raw text.
pub open spec fn raw_authority(raw: Seq<char>) -> Seq<char> {
    let rest = raw.skip("https://"@.len() as int);
    rest.take(authority_len(rest))
}

pub open spec fn ascii_lower_code(c: char) -> u32 {
    let u = c as u32;
    if 0x41 <= u <= 0x5A {
        (u + 0x20) as u32
    } else {
        u
    }
}

/// `str::eq_ignore_ascii_case`, read over characters.
pub open spec fn eq_ignore_ascii_case(a: Seq<char>, b: Seq<char>) -> bool {
    a.len() == b.len() && forall|i: int| 0 <= i < a.len() ==> ascii_lower_code(a[i]) == ascii_lower_code(b[i])
}

/// The value of one `key=value` query segment, or why it is refused.
pub open spec fn segment_value(seg: Seq<char>) -> Result<Seq<char>, DeepLinkReason> {
    let parts = split_seq(seg, '=');
    if parts.len() != 2 || parts[0].len() == 0 {
        Err(DeepLinkReason::NonCanonical)
    } else if parts[0] != "action"@ {
        Err(DeepLinkReason::UnexpectedParameter)
    } else {
        Ok(parts[1])
    }
}

/// The values of all segments in order, or the refusal of the first bad one.
pub open spec fn segment_values(segs: Seq<Seq<char>>) -> Result<Seq<Seq<char>>, DeepLinkReason>
    decreases segs.len(),
{
    if segs.len() == 0 {
        Ok(seq![])
    } else {
        match segment_value(segs[0]) {
            Err(e) => Err(e),
            Ok(x) => match segment_values(segs.drop_first()) {
                Err(e) => Err(e),
                Ok(xs) => Ok(seq![x] + xs),
            },
        }
    }
}

/// The action requested by a query string, or why the query is refused.
pub open spec fn query_action(query: Seq<char>) -> Result<Seq<char>, DeepLinkReason> {
    if query.len() == 0 {
        Err(DeepLinkReason::MissingAction)
    } else {
        let segs = split_seq(query, '&');
        if exists|i: int| 0 <= i < segs.len() && segs[i].len() == 0 {
            Err(DeepLinkReason::NonCanonical)
        } else {
            match segment_values(segs) {
                Err(e) => Err(e),
                Ok(values) => if values.len() > 1 {
                    Err(DeepLinkReason::DuplicateParameter)
                } else {
                    let action = if values.len() == 0 { Seq::<char>::empty() } else { values[0] };
                    if action.len() == 0 {
                        Err(DeepLinkReason::MissingAction)
                    } else if !is_allowed_action(action) {
                        Err(DeepLinkReason::UnknownAction)
                    } else {
                        Ok(action)
                    }
                },
            }
        }
    }
}

/// The admission decision for a resolved capture `raw`, given what the URL
/// parser made of it: the admitted action, or the first reason to refuse.
pub open spec fn admission_result(raw: Seq<char>, parsed: Option<ParsedUrlView>) -> Result<
    Seq<char>,
    DeepLinkReason,
> {
    match parsed {
        None => Err(DeepLinkReason::Malformed),
        Some(u) => if u.scheme != "https"@ {
            Err(DeepLinkReason::InsecureScheme)
        } else if !has_prefix(raw, "https://"@) {
            Err(DeepLinkReason::NonCanonical)
        } else {
            let authority = raw_authority(raw);
            if authority.contains('@') || u.username.len() != 0 || u.password is Some {
                Err(DeepLinkReason::CredentialsForbidden)
            } else if has_prefix(authority, "fiducia.cloud:"@) {
                Err(DeepLinkReason::UnexpectedPort)
            } else if eq_ignore_ascii_case(authority, "fiducia.cloud"@) && authority
                != "fiducia.cloud"@ {
                Err(DeepLinkReason::NonCanonical)
            } else if authority != "fiducia.cloud"@ || u.host != Some("fiducia.cloud"@) {
                Err(DeepLinkReason::UnexpectedOrigin)
            } else if u.port is Some {
                Err(DeepLinkReason::UnexpectedPort)
            } else if raw.contains('#') || u.fragment is Some {
                Err(DeepLinkReason::FragmentForbidden)
            } else if u.path != "/open"@ {
                Err(DeepLinkReason::UnexpectedPath)
            } else if raw.contains('%') || raw.contains('+') {
                Err(DeepLinkReason::NonCanonical)
            } else {
                match first_index_of(raw, '?') {
                    None => Err(DeepLinkReason::MissingAction),
                    Some(q) => match query_action(raw.skip(q + 1)) {
                        Err(e) => Err(e),
                        Ok(action) => if raw != canonical_url_view(action) || u.serialization
                            != raw {
                            Err(DeepLinkReason::NonCanonical)
                        } else {
                            Ok(action)
                        },
                    },
                }
            }
        },
    }
}

pub open spec fn admission_view(r: Result<DeepLinkIntent, DeepLinkReason>) -> Result<
    Seq<char>,
    DeepLinkReason,
> {
    match r {
        Ok(i) => Ok(i@),
        Err(e) => Err(e),
    }
}


/* ---------------------------------------------------------------------------
 * Executable admission.
 * ------------------------------------------------------------------------- */

/// Why a raw capture is refused before resolution, if it is.
pub fn preflight(raw: &str) -> (r: Option<DeepLinkReason>)
    ensures
        r == preflight_reason(raw@),
{
    let v = chars_of(raw);
    if v.len() == 0 {
        return Some(DeepLinkReason::Empty);
    }
    if utf8_len_exceeds(&v, 2048) {
        return Some(DeepLinkReason::TooLong);
    }
    let (a, b) = trim_bounds(&v);
    if a != 0 || b != v.len() {
        assert(trim(raw@).len() != raw@.len());
        return Some(DeepLinkReason::Malformed);
    }
    assert(trim(raw@) =~= raw@);
    let mut k: usize = 0;
    while k < v.len()
        invariant
            v@ == raw@,
            raw@.len() > 0,
            utf8_len(raw@) <= 2048,
            trim(raw@) == raw@,
            k <= v@.len(),
            forall|i: int| 0 <= i < k ==> !is_unicode_control(raw@[i]),
        decreases v@.len() - k,
    {
        if char_is_control(v[k]) {
            assert(is_unicode_control(raw@[k as int]));
            return Some(DeepLinkReason::Malformed);
        }
        k = k + 1;
    }
    None
}

/// Whether two string slices hold the same characters.
fn str_equals(a: &str, b: &str) -> (r: bool)
    ensures
        r == (a@ == b@),
{
    let va = chars_of(a);
    let vb = chars_of(b);
    assert(va@.subrange(0, va@.len() as int) =~= va@);
    range_equals(&va, 0, va.len(), &vb)
}

/// Whether `v` starts with the characters of `p`.
fn starts_with(v: &Vec<char>, p: &str) -> (r: bool)
    ensures
        r == has_prefix(v@, p@),
{
    let vp = chars_of(p);
    if vp.len() > v.len() {
        return false;
    }
    assert(v@.take(vp@.len() as int) =~= v@.subrange(0, vp@.len() as int));
    range_equals(v, 0, vp.len(), &vp)
}

/// Where the authority that starts at `lo` ends: the first `/`, `?` or `#`, or the end.
fn authority_end(v: &Vec<char>, lo: usize) -> (r: usize)
    requires
        lo <= v@.len(),
    ensures
        lo <= r <= v@.len(),
        r - lo == authority_len(v@.skip(lo as int)),
{
    let ghost rest = v@.skip(lo as int);
    let mut k: usize = lo;
    while k < v.len()
        invariant
            lo <= k <= v@.len(),
            rest == v@.skip(lo as int),
            forall|j: int| 0 <= j < k - lo ==> !is_authority_terminator(rest[j]),
        decreases v@.len() - k,
    {
        let c = v[k];
        if c == '/' || c == '?' || c == '#' {
            assert(is_first_terminator(rest, k - lo));
            proof {
                let ch = choose|i: int| is_first_terminator(rest, i);
                assert(is_first_terminator(rest, ch));
                if ch < k - lo {
                    assert(!is_authority_terminator(rest[ch]));
                }
                if ch > k - lo {
                    assert(!is_authority_terminator(rest[k - lo]));
                }
            }
            return k;
        }
        k = k + 1;
    }
    assert(!exists|i: int| is_first_terminator(rest, i));
    v.len()
}

fn ascii_lower(c: char) -> (r: u32)
    ensures
        r == ascii_lower_code(c),
{
    let u = c as u32;
    if 0x41 <= u && u <= 0x5A {
        u + 0x20
    } else {
        u
    }
}

/// Whether `v[lo..hi]` equals `w` ignoring ASCII case.
fn range_eq_ignore_ascii_case(v: &Vec<char>, lo: usize, hi: usize, w: &Vec<char>) -> (r: bool)
    requires
        lo <= hi <= v@.len(),
    ensures
        r == eq_ignore_ascii_case(v@.subrange(lo as int, hi as int), w@),
{
    let ghost a = v@.subrange(lo as int, hi as int);
    if hi - lo != w.len() {
        return false;
    }
    let mut k: usize = 0;
    while k < w.len()
        invariant
            lo <= hi <= v@.len(),
            a == v@.subrange(lo as int, hi as int),
            hi - lo == w@.len(),
            k <= w@.len(),
            forall|m: int| 0 <= m < k ==> ascii_lower_code(a[m]) == ascii_lower_code(w@[m]),
        decreases w@.len() - k,
    {
        if ascii_lower(v[lo + k]) != ascii_lower(w[k]) {
            assert(a[k as int] == v@[lo + k]);
            return false;
        }
        assert(a[k as int] == v@[lo + k]);
        k = k + 1;
    }
    true
}

pub open spec fn values_then(vs: Seq<Seq<char>>, r: Result<Seq<Seq<char>>, DeepLinkReason>) -> Result<
    Seq<Seq<char>>,
    DeepLinkReason,
> {
    match r {
        Ok(xs) => Ok(vs + xs),
        Err(e) => Err(e),
    }
}

/// The range in `v` of the action that the query `v[lo..]` requests, or why it is refused.
fn query_action_range(v: &Vec<char>, lo: usize) -> (r: Result<(usize, usize), DeepLinkReason>)
    requires
        lo <= v@.len(),
    ensures
        match r {
            Ok((a, b)) => lo <= a <= b <= v@.len() && query_action(v@.skip(lo as int)) == Ok::<
                Seq<char>,
                DeepLinkReason,
            >(v@.subrange(a as int, b as int)),
            Err(e) => query_action(v@.skip(lo as int)) == Err::<Seq<char>, DeepLinkReason>(e),
        },
{
    let n = v.len();
    let ghost query = v@.skip(lo as int);
    assert(query =~= v@.subrange(lo as int, n as int));
    if lo == n {
        return Err(DeepLinkReason::MissingAction);
    }
    let segments = split_ranges(v, lo, n, '&');
    let ghost segs = split_seq(query, '&');
    let mut k: usize = 0;
    while k < segments.len()
        invariant
            segs == split_seq(query, '&'),
            query == v@.subrange(lo as int, n as int),
            lo < n,
            n == v@.len(),
            segments@.len() == segs.len(),
            forall|i: int|
                0 <= i < segments@.len() ==> lo <= (#[trigger] segments@[i]).0 <= segments@[i].1
                    <= n && v@.subrange(segments@[i].0 as int, segments@[i].1 as int) == segs[i],
            k <= segments@.len(),
            forall|i: int| 0 <= i < k ==> segs[i].len() != 0,
        decreases segments@.len() - k,
    {
        let (a, b) = segments[k];
        if a == b {
            assert(segs[k as int] =~= v@.subrange(a as int, b as int));
            assert(segs[k as int].len() == 0);
            assert(query.len() > 0);
            return Err(DeepLinkReason::NonCanonical);
        }
        k = k + 1;
    }
    let key = chars_of("action");
    let mut values: Vec<(usize, usize)> = Vec::new();
    let ghost mut vals: Seq<Seq<char>> = seq![];
    let mut k: usize = 0;
    assert(segs.skip(0) =~= segs);
    while k < segments.len()
        invariant
            segs == split_seq(query, '&'),
            query == v@.subrange(lo as int, n as int),
            lo < n,
            n == v@.len(),
            forall|i: int| 0 <= i < segs.len() ==> segs[i].len() != 0,
            key@ == "action"@,
            segments@.len() == segs.len(),
            forall|i: int|
                0 <= i < segments@.len() ==> lo <= (#[trigger] segments@[i]).0 <= segments@[i].1
                    <= n && v@.subrange(segments@[i].0 as int, segments@[i].1 as int) == segs[i],
            k <= segments@.len(),
            segment_values(segs) == values_then(vals, segment_values(segs.skip(k as int))),
            values@.len() == vals.len(),
            forall|i: int|
                0 <= i < values@.len() ==> lo <= (#[trigger] values@[i]).0 <= values@[i].1 <= n
                    && v@.subrange(values@[i].0 as int, values@[i].1 as int) == vals[i],
        decreases segments@.len() - k,
    {
        let (a, b) = segments[k];
        let ghost seg = segs[k as int];
        assert(seg == v@.subrange(a as int, b as int));
        let parts = split_ranges(v, a, b, '=');
        let ghost parts_seq = split_seq(seg, '=');
        proof {
            assert(segs.skip(k as int)[0] == seg);
            assert(segs.skip(k as int).drop_first() =~= segs.skip(k + 1));
            assert(segment_values(segs.skip(k as int)) == match segment_value(seg) {
                Err(e) => Err(e),
                Ok(x) => match segment_values(segs.skip(k + 1)) {
                    Err(e) => Err(e),
                    Ok(xs) => Ok(seq![x] + xs),
                },
            });
        }
        if parts.len() != 2 {
            assert(segment_value(seg) == Err::<Seq<char>, DeepLinkReason>(DeepLinkReason::NonCanonical));
            return Err(DeepLinkReason::NonCanonical);
        }
        let (ka, kb) = parts[0];
        let (va, vb) = parts[1];
        assert(parts_seq[0] == v@.subrange(ka as int, kb as int));
        assert(parts_seq[1] == v@.subrange(va as int, vb as int));
        if ka == kb {
            assert(parts_seq[0].len() == 0);
            assert(segment_value(seg) == Err::<Seq<char>, DeepLinkReason>(DeepLinkReason::NonCanonical));
            return Err(DeepLinkReason::NonCanonical);
        }
        if !range_equals(v, ka, kb, &key) {
            assert(segment_value(seg) == Err::<Seq<char>, DeepLinkReason>(
                DeepLinkReason::UnexpectedParameter,
            ));
            return Err(DeepLinkReason::UnexpectedParameter);
        }
        proof {
            assert(segment_value(seg) == Ok::<Seq<char>, DeepLinkReason>(parts_seq[1]));
            assert(vals.push(parts_seq[1]) =~= vals + seq![parts_seq[1]]);
            match segment_values(segs.skip(k + 1)) {
                Ok(xs) => {
                    assert(vals + (seq![parts_seq[1]] + xs) =~= vals.push(parts_seq[1]) + xs);
                },
                Err(e) => {},
            }
            vals = vals.push(parts_seq[1]);
        }
        values.push((va, vb));
        k = k + 1;
    }
    assert(segs.skip(k as int) =~= Seq::<Seq<char>>::empty());
    assert(vals + Seq::<Seq<char>>::empty() =~= vals);
    assert(segment_values(segs) == Ok::<Seq<Seq<char>>, DeepLinkReason>(vals));
    assert(query.len() > 0);
    if values.len() > 1 {
        return Err(DeepLinkReason::DuplicateParameter);
    }
    if values.len() == 0 {
        return Err(DeepLinkReason::MissingAction);
    }
    let (a, b) = values[0];
    if a == b {
        return Err(DeepLinkReason::MissingAction);
    }
    let rotate = chars_of("rotate-api-key");
    let review = chars_of("review-reconciliation");
    assert(vals[0] == v@.subrange(a as int, b as int));
    if !range_equals(v, a, b, &rotate) && !range_equals(v, a, b, &review) {
        return Err(DeepLinkReason::UnknownAction);
    }
    assert(query_action(query) == Ok::<Seq<char>, DeepLinkReason>(vals[0]));
    Ok((a, b))
}

/// The admission decision for the resolved capture `raw`, given what the URL
/// parser reported for it.
pub fn admit_parsed(raw: &str, parsed: Option<ParsedUrl>) -> (r: Result<
    DeepLinkIntent,
    DeepLinkReason,
>)
    ensures
        admission_view(r) == admission_result(raw@, parsed_view(parsed)),
{
    let u = match parsed {
        Some(u) => u,
        None => {
            return Err(DeepLinkReason::Malformed);
        },
    };
    if !str_equals(u.scheme.as_str(), "https") {
        return Err(DeepLinkReason::InsecureScheme);
    }
    let v = chars_of(raw);
    if !starts_with(&v, "https://") {
        return Err(DeepLinkReason::NonCanonical);
    }
    let start = chars_of("https://").len();
    let end = authority_end(&v, start);
    let ghost authority = v@.subrange(start as int, end as int);
    assert(authority =~= raw_authority(raw@));
    let host = chars_of("fiducia.cloud");
    if range_contains(&v, start, end, '@') || u.username.as_str().unicode_len() != 0
        || u.password.is_some() {
        return Err(DeepLinkReason::CredentialsForbidden);
    }
    let host_with_port = chars_of("fiducia.cloud:");
    if end - start >= host_with_port.len() && range_equals(
        &v,
        start,
        start + host_with_port.len(),
        &host_with_port,
    ) {
        assert(authority.take(host_with_port@.len() as int) =~= v@.subrange(
            start as int,
            start + host_with_port@.len(),
        ));
        return Err(DeepLinkReason::UnexpectedPort);
    }
    proof {
        if has_prefix(authority, "fiducia.cloud:"@) {
            assert(authority.take(host_with_port@.len() as int) =~= v@.subrange(
                start as int,
                start + host_with_port@.len(),
            ));
        }
    }
    let exact_host = range_equals(&v, start, end, &host);
    if range_eq_ignore_ascii_case(&v, start, end, &host) && !exact_host {
        return Err(DeepLinkReason::NonCanonical);
    }
    let host_matches = match &u.host {
        Some(h) => str_equals(h.as_str(), "fiducia.cloud"),
        None => false,
    };
    if !exact_host || !host_matches {
        return Err(DeepLinkReason::UnexpectedOrigin);
    }
    if u.port.is_some() {
        return Err(DeepLinkReason::UnexpectedPort);
    }
    let n = v.len();
    assert(v@.subrange(0, n as int) =~= raw@);
    if range_contains(&v, 0, n, '#') || u.fragment.is_some() {
        return Err(DeepLinkReason::FragmentForbidden);
    }
    if !str_equals(u.path.as_str(), "/open") {
        return Err(DeepLinkReason::UnexpectedPath);
    }
    if range_contains(&v, 0, n, '%') || range_contains(&v, 0, n, '+') {
        return Err(DeepLinkReason::NonCanonical);
    }
    let q = match find_in_range(&v, 0, n, '?') {
        Some(q) => q,
        None => {
            return Err(DeepLinkReason::MissingAction);
        },
    };
    let (a, b) = match query_action_range(&v, q + 1) {
        Ok(range) => range,
        Err(e) => {
            return Err(e);
        },
    };
    let action = raw.substring_char(a, b);
    let canonical = concat_str("https://fiducia.cloud/open?action=", action);
    if !str_equals(raw, canonical.as_str()) || !str_equals(u.serialization.as_str(), raw) {
        return Err(DeepLinkReason::NonCanonical);
    }
    Ok(DeepLinkIntent::new(action))
}

/// Parses a resolved capture with the URL parser and decides its admission.
pub fn parse(raw: &str) -> (r: Result<DeepLinkIntent, DeepLinkReason>)
    ensures
        admission_view(r) == admission_result(raw@, url_parse(raw@)),
{
    let parsed = parse_url(raw);
    admit_parsed(raw, parsed)
}

} // verus!
