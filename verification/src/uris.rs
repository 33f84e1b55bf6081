//! The URIs that the `url` crate takes without a panic, told from their text.

use vstd::prelude::*;
use vstd::string::StrSliceExecFns;

verus! {

/// The characters that a URI is cut up by.
#[derive(Clone, Copy)]
pub enum CharClass {
    /// What may stand in front of the colon after the scheme.
    BeforeColon,
    /// The slashes in front of the host.
    Slash,
    /// What may stand between those slashes and the path.
    Authority,
    /// What may stand in front of the query and the fragment.
    BeforeQuery,
    /// What may stand between two slashes.
    BeforeSlash,
}

impl CharClass {
    /// The character is one of the class.
    pub open spec fn has(self, c: char) -> bool {
        match self {
            CharClass::BeforeColon => c != ':',
            CharClass::Slash => c == '/' || c == '\\',
            CharClass::Authority => c != '/' && c != '\\' && c != '?' && c != '#',
            CharClass::BeforeQuery => c != '?' && c != '#',
            CharClass::BeforeSlash => c != '/',
        }
    }

    /// Whether the character is one of the class.
    fn contains(self, c: char) -> (res: bool)
        ensures
            res == self.has(c),
    {
        match self {
            CharClass::BeforeColon => c != ':',
            CharClass::Slash => c == '/' || c == '\\',
            CharClass::Authority => c != '/' && c != '\\' && c != '?' && c != '#',
            CharClass::BeforeQuery => c != '?' && c != '#',
            CharClass::BeforeSlash => c != '/',
        }
    }
}

/// The first position from `from` on at which no character of the class stands.
pub open spec fn span_end(text: Seq<char>, from: int, class: CharClass) -> int
    decreases text.len() - from,
{
    if 0 <= from < text.len() && class.has(text[from]) {
        span_end(text, from + 1, class)
    } else {
        from
    }
}

/// The first position from `from` on at which no character of the class stands.
fn find_span_end(text: &Vec<char>, from: usize, class: CharClass) -> (end: usize)
    requires
        from <= text@.len(),
    ensures
        end == span_end(text@, from as int, class),
        from <= end <= text@.len(),
{
    let mut end: usize = from;
    while end < text.len() && class.contains(text[end])
        invariant
            from <= end <= text@.len(),
            span_end(text@, end as int, class) == span_end(text@, from as int, class),
        decreases text@.len() - end,
    {
        end = end + 1;
    }
    end
}

/// The URI as a URL parser takes it: without tabs and line ends, and without the control characters
/// and spaces in front of it.
pub open spec fn taken_text(uri: Seq<char>) -> Seq<char>
    decreases uri.len(),
{
    if uri.len() == 0 {
        Seq::empty()
    } else {
        let before = taken_text(uri.drop_last());
        let c = uri.last();
        if c == '\t' || c == '\n' || c == '\r' || (before.len() == 0 && c <= ' ') {
            before
        } else {
            before.push(c)
        }
    }
}

/// The characters of a URI as a URL parser takes them.
fn take_text(uri: &str) -> (text: Vec<char>)
    ensures
        text@ == taken_text(uri@),
{
    let mut text: Vec<char> = Vec::new();
    for c in it: uri.chars()
        invariant
            it.seq() == uri@,
            text@ == taken_text(uri@.take(it.index() as int)),
    {
        proof {
            let so_far = uri@.take(it.index() + 1);
            assert(so_far.drop_last() == uri@.take(it.index() as int));
            assert(so_far.last() == c);
        }
        if !(c == '\t' || c == '\n' || c == '\r' || (text.len() == 0 && c <= ' ')) {
            text.push(c);
        }
    }
    assert(uri@.take(uri@.len() as int) == uri@);
    text
}

/// The character is the small letter, or the capital of it.
pub open spec fn is_letter(c: char, small: char) -> bool {
    c == small || ('A' <= c <= 'Z' && c as u32 + 32 == small as u32)
}

/// The text in front of `end` is the name, in small letters or capitals.
pub open spec fn is_named(text: Seq<char>, end: int, name: Seq<char>) -> bool {
    &&& end == name.len()
    &&& forall|i: int| 0 <= i < name.len() ==> is_letter(#[trigger] text[i], name[i])
}

/// Whether the text in front of `end` is the name, in small letters or capitals.
fn has_name(text: &Vec<char>, end: usize, name: &str) -> (res: bool)
    requires
        end <= text@.len(),
    ensures
        res == is_named(text@, end as int, name@),
{
    let mut at: usize = 0;
    for c in it: name.chars()
        invariant
            it.seq() == name@,
            at == it.index(),
            at <= end <= text@.len(),
            forall|i: int| 0 <= i < at ==> is_letter(#[trigger] text@[i], name@[i]),
    {
        if at == end {
            return false;
        }
        let found: char = text[at];
        if !(found == c || ('A' <= found && found <= 'Z' && found as u32 + 32 == c as u32)) {
            assert(!is_letter(text@[at as int], name@[at as int]));
            return false;
        }
        at = at + 1;
    }
    at == end
}

/// The scheme in front of `end` is one of those, other than `file`, whose URLs name a host of the
/// network.
pub open spec fn names_a_server(text: Seq<char>, end: int) -> bool {
    ||| is_named(text, end, "http"@)
    ||| is_named(text, end, "https"@)
    ||| is_named(text, end, "ws"@)
    ||| is_named(text, end, "wss"@)
    ||| is_named(text, end, "ftp"@)
    ||| is_named(text, end, "gopher"@)
}

/// Where the user, the host and the port stand in a URI, by their start and their end: nowhere where
/// the URI has no host, or one that the URL parser does not read as a domain.
pub open spec fn authority_span(text: Seq<char>) -> (int, int) {
    let colon = span_end(text, 0, CharClass::BeforeColon);
    let slashes_end = span_end(text, colon + 1, CharClass::Slash);
    if colon == text.len() {
        (0, 0)
    } else if is_named(text, colon, "file"@) {
        if slashes_end >= colon + 3 {
            (colon + 3, span_end(text, colon + 3, CharClass::Authority))
        } else {
            (0, 0)
        }
    } else if names_a_server(text, colon) {
        (slashes_end, span_end(text, slashes_end, CharClass::Authority))
    } else {
        (0, 0)
    }
}

/// Where the user, the host and the port stand in a URI.
fn find_authority(text: &Vec<char>) -> (span: (usize, usize))
    ensures
        (span.0 as int, span.1 as int) == authority_span(text@),
        span.0 <= span.1 <= text@.len(),
{
    let colon: usize = find_span_end(text, 0, CharClass::BeforeColon);
    if colon == text.len() {
        return (0, 0);
    }
    let slashes_end: usize = find_span_end(text, colon + 1, CharClass::Slash);
    if has_name(text, colon, "file") {
        if slashes_end - colon >= 3 {
            (colon + 3, find_span_end(text, colon + 3, CharClass::Authority))
        } else {
            (0, 0)
        }
    } else if has_name(text, colon, "http") || has_name(text, colon, "https") || has_name(
        text,
        colon,
        "ws",
    ) || has_name(text, colon, "wss") || has_name(text, colon, "ftp") || has_name(
        text,
        colon,
        "gopher",
    ) {
        (slashes_end, find_span_end(text, slashes_end, CharClass::Authority))
    } else {
        (0, 0)
    }
}

/// The most characters that the text from `start` to `end` can become once it is decoded, mapped and
/// composed as a domain. The ligature U+FDFA becomes 18 characters and no other more than 8. An
/// encoded byte, `%` and two digits, counts 6, so the 3 bytes of that ligature count 18.
pub open spec fn host_weight(text: Seq<char>, start: int, end: int) -> nat
    decreases end - start,
{
    if start >= end {
        0
    } else {
        host_weight(text, start, end - 1) + char_weight(text[end - 1])
    }
}

/// The most characters that a character of a host can become.
pub open spec fn char_weight(c: char) -> nat {
    if c == '%' {
        4
    } else if c <= '\u{7F}' {
        1
    } else if c == '\u{FDFA}' {
        18
    } else {
        8
    }
}

/// The length up to which no domain label overflows the counters of its encoding.
pub const LABEL_LIMIT: u64 = 3855;

/// The text from `start` to `end` is in ASCII, with no encoded byte and no two hyphens in a row, so
/// that no part of it is encoded or decoded as a domain label.
pub open spec fn is_plain(text: Seq<char>, start: int, end: int) -> bool {
    forall|i: int| start <= i < end ==> is_plain_at(text, #[trigger] text[i], i, end)
}

/// The character at `i` is in ASCII, no percent sign, and no hyphen in front of another.
pub open spec fn is_plain_at(text: Seq<char>, c: char, i: int, end: int) -> bool {
    &&& c <= '\u{7F}'
    &&& c != '%'
    &&& !(c == '-' && i + 1 < end && text[i + 1] == '-')
}

/// The length up to which no URI overflows the counters of the URL parser.
pub const URI_LIMIT: usize = 0x7FFF_FFFF;

/// The URI can be read as a URL, and the host in it as a domain, without an overflow.
pub open spec fn has_safe_host(uri: Seq<char>) -> bool {
    let text = taken_text(uri);
    let (start, end) = authority_span(text);
    &&& uri.len() <= URI_LIMIT
    &&& (is_plain(text, start, end) || host_weight(text, start, end) <= LABEL_LIMIT)
}

/// Whether the URI can be read as a URL, and the host in it as a domain, without an overflow.
///
/// The `url` crate counts the characters in front of the path with 31 bits. It hands the host of some
/// URLs to the `idna` crate, which encodes each label that is not in ASCII with counters of 32 bits:
/// they overflow only where a label is long.
pub fn host_is_safe(uri: &str) -> (res: bool)
    ensures
        res == has_safe_host(uri@),
{
    if uri.unicode_len() > URI_LIMIT {
        return false;
    }
    let text: Vec<char> = take_text(uri);
    let (start, end): (usize, usize) = find_authority(&text);
    let mut plain: bool = true;
    let mut weight: u128 = 0;
    for i in start..end
        invariant
            start <= end <= text@.len(),
            plain == (forall|k: int|
                start <= k < i ==> is_plain_at(text@, #[trigger] text@[k], k, end as int)),
            weight == host_weight(text@, start as int, i as int),
            weight <= 18 * (i - start),
    {
        let c: char = text[i];
        let more: u128 = if c == '%' {
            4
        } else if c <= '\u{7F}' {
            1
        } else if c == '\u{FDFA}' {
            18
        } else {
            8
        };
        weight = weight + more;
        let hyphens: bool = c == '-' && i + 1 < end && text[i + 1] == '-';
        if !(c <= '\u{7F}') || c == '%' || hyphens {
            assert(!is_plain_at(text@, text@[i as int], i as int, end as int));
            plain = false;
        }
    }
    plain || weight <= LABEL_LIMIT as u128
}

/// The URL parser takes the start of a URI for a local file as it stands.
proof fn lemma_local_start_is_taken(uri: Seq<char>)
    requires
        uri.len() >= 8,
        uri.take(8) == "file:///"@,
    ensures
        taken_text(uri).len() >= 8,
        taken_text(uri).take(8) == "file:///"@,
    decreases uri.len(),
{
    reveal_strlit("file:///");
    if uri.len() == 8 {
        assert(uri == "file:///"@);
        reveal_with_fuel(taken_text, 9);
        assert(taken_text(uri) == uri);
    } else {
        assert(uri.drop_last().take(8) == uri.take(8));
        lemma_local_start_is_taken(uri.drop_last());
        assert(taken_text(uri).take(8) == taken_text(uri.drop_last()).take(8));
    }
}

/// The URI of a local file has no host, so the test turns none away, whatever its path is.
pub proof fn law_local_file_has_a_safe_host(uri: Seq<char>)
    requires
        "file:///"@.is_prefix_of(uri),
        uri.len() <= URI_LIMIT,
    ensures
        has_safe_host(uri),
{
    reveal_strlit("file:///");
    reveal_strlit("file");
    assert(uri.take(8) == "file:///"@);
    lemma_local_start_is_taken(uri);
    let text = taken_text(uri);
    assert(forall|i: int| 0 <= i < 8 ==> text[i] == text.take(8)[i]);
    reveal_with_fuel(span_end, 6);
    assert(span_end(text, 0, CharClass::BeforeColon) == 4);
    assert(is_named(text, 4, "file"@));
    assert(span_end(text, 7, CharClass::Authority) == 7);
}

/// The character is an ASCII letter.
pub open spec fn is_ascii_letter(c: char) -> bool {
    ('A' <= c <= 'Z') || ('a' <= c <= 'z')
}

/// The text in front of `end` ends in a drive letter after a slash.
pub open spec fn ends_in_a_drive(text: Seq<char>, end: int) -> bool {
    ||| end >= 3 && text[end - 3] == '/' && is_ascii_letter(text[end - 2]) && text[end - 1] == ':'
    ||| end >= 5 && text[end - 5] == '/' && is_ascii_letter(text[end - 4]) && text[end - 3] == '%'
        && text[end - 2] == '3' && (text[end - 1] == 'A' || text[end - 1] == 'a')
}

/// An encoded slash of either kind stands at `at`.
pub open spec fn is_encoded_slash(text: Seq<char>, at: int) -> bool {
    &&& at + 2 < text.len()
    &&& text[at] == '%'
    &&& ({
        ||| text[at + 1] == '2' && (text[at + 2] == 'F' || text[at + 2] == 'f')
        ||| text[at + 1] == '5' && (text[at + 2] == 'C' || text[at + 2] == 'c')
    })
}

/// The text in front of `end` is a URL of the scheme `file` that names a server and no share.
pub open spec fn lacks_a_share(text: Seq<char>, end: int) -> bool {
    let slash = span_end(text, 7, CharClass::BeforeSlash);
    &&& end > 7
    &&& text.take(7) == "file://"@
    &&& text[7] != '/'
    &&& (slash + 1 >= end || text[slash + 1] == '/' || is_encoded_slash(text, slash + 1))
}

/// On Windows the path of the URL is not absolute: it is a drive with no path on it, or a server
/// with no share.
pub open spec fn is_half_a_windows_path(url: Seq<char>) -> bool {
    let end = span_end(url, 0, CharClass::BeforeQuery);
    ends_in_a_drive(url, end) || lacks_a_share(url, end)
}

/// The characters of a text.
fn to_chars(text: &str) -> (chars: Vec<char>)
    ensures
        chars@ == text@,
{
    let mut chars: Vec<char> = Vec::new();
    for c in it: text.chars()
        invariant
            it.seq() == text@,
            chars@ == text@.take(it.index() as int),
    {
        chars.push(c);
    }
    chars
}

/// Whether the character is an ASCII letter.
fn ascii_letter(c: char) -> (res: bool)
    ensures
        res == is_ascii_letter(c),
{
    ('A' <= c && c <= 'Z') || ('a' <= c && c <= 'z')
}

/// Whether the text in front of `end` ends in a drive letter after a slash.
fn drive_at_end(text: &Vec<char>, end: usize) -> (res: bool)
    requires
        end <= text@.len(),
    ensures
        res == ends_in_a_drive(text@, end as int),
{
    if end >= 3 && text[end - 3] == '/' && ascii_letter(text[end - 2]) && text[end - 1] == ':' {
        return true;
    }
    end >= 5 && text[end - 5] == '/' && ascii_letter(text[end - 4]) && text[end - 3] == '%' && text[
    end - 2] == '3' && (text[end - 1] == 'A' || text[end - 1] == 'a')
}

/// Whether an encoded slash of either kind stands at `at`.
fn encoded_slash(text: &Vec<char>, at: usize) -> (res: bool)
    requires
        at < text@.len(),
    ensures
        res == is_encoded_slash(text@, at as int),
{
    if text.len() - at <= 2 || text[at] != '%' {
        return false;
    }
    let last: char = text[at + 2];
    match text[at + 1] {
        '2' => last == 'F' || last == 'f',
        '5' => last == 'C' || last == 'c',
        _ => false,
    }
}

/// Whether the text in front of `end` is a URL of the scheme `file` that names a server and no
/// share.
fn server_without_share(text: &Vec<char>, end: usize) -> (res: bool)
    requires
        end <= text@.len(),
    ensures
        res == lacks_a_share(text@, end as int),
{
    if end <= 7 || text[7] == '/' {
        return false;
    }
    proof {
        reveal_strlit("file://");
        assert(text@.take(7).len() == 7);
    }
    if !(text[0] == 'f' && text[1] == 'i' && text[2] == 'l' && text[3] == 'e' && text[4] == ':'
        && text[5] == '/' && text[6] == '/') {
        assert(forall|i: int| 0 <= i < 7 ==> text@[i] == text@.take(7)[i]);
        return false;
    }
    assert(text@.take(7) == "file://"@);
    let slash: usize = find_span_end(text, 7, CharClass::BeforeSlash);
    slash >= end || slash + 1 >= end || text[slash + 1] == '/' || encoded_slash(text, slash + 1)
}

/// Whether the path of the URL is not absolute on Windows.
pub fn half_a_windows_path(url: &str) -> (res: bool)
    ensures
        res == is_half_a_windows_path(url@),
{
    let text: Vec<char> = to_chars(url);
    let end: usize = find_span_end(&text, 0, CharClass::BeforeQuery);
    drive_at_end(&text, end) || server_without_share(&text, end)
}

/// A text that starts with a visible character and has no tab or line end is taken as it stands,
/// whatever comes after it.
proof fn lemma_start_is_taken(uri: Seq<char>, start: Seq<char>)
    requires
        0 < start.len() <= uri.len(),
        uri.take(start.len() as int) == start,
        start[0] > ' ',
        forall|i: int|
            0 <= i < start.len() ==> #[trigger] start[i] != '\t' && start[i] != '\n' && start[i]
                != '\r',
    ensures
        taken_text(uri).len() >= start.len(),
        taken_text(uri).take(start.len() as int) == start,
    decreases uri.len(),
{
    let n = start.len() as int;
    assert(forall|i: int| 0 <= i < n ==> uri.take(n)[i] == uri[i]);
    if uri.len() > start.len() {
        assert(uri.drop_last().take(n) == uri.take(n));
        lemma_start_is_taken(uri.drop_last(), start);
        assert(taken_text(uri).take(n) == taken_text(uri.drop_last()).take(n));
    } else {
        assert(uri == start);
        lemma_visible_text_is_taken(start);
        assert(start.take(n) == start);
    }
}

proof fn lemma_visible_text_is_taken(text: Seq<char>)
    requires
        text.len() > 0 ==> text[0] > ' ',
        forall|i: int|
            0 <= i < text.len() ==> #[trigger] text[i] != '\t' && text[i] != '\n' && text[i]
                != '\r',
    ensures
        taken_text(text) == text,
    decreases text.len(),
{
    if text.len() > 0 {
        let before = text.drop_last();
        assert(forall|i: int| 0 <= i < before.len() ==> before[i] == text[i]);
        lemma_visible_text_is_taken(before);
        assert(before.push(text.last()) == text);
        assert(text.last() == text[text.len() - 1]);
    }
}

/// What is taken of a URI are characters of it.
proof fn lemma_taken_characters(uri: Seq<char>)
    ensures
        taken_text(uri).len() <= uri.len(),
        forall|i: int| 0 <= i < taken_text(uri).len() ==> uri.contains(#[trigger] taken_text(uri)[i]),
    decreases uri.len(),
{
    if uri.len() > 0 {
        let before = uri.drop_last();
        lemma_taken_characters(before);
        assert forall|i: int| 0 <= i < taken_text(uri).len() implies uri.contains(
            #[trigger] taken_text(uri)[i],
        ) by {
            let c = taken_text(uri)[i];
            if i < taken_text(before).len() {
                assert(c == taken_text(before)[i]);
                let k = choose|k: int| 0 <= k < before.len() && before[k] == c;
                assert(uri[k] == c);
            } else {
                assert(uri[uri.len() - 1] == c);
            }
        }
    }
}

/// The end of a span lies between its start and the end of the text.
proof fn lemma_span_end(text: Seq<char>, from: int, class: CharClass)
    requires
        0 <= from <= text.len(),
    ensures
        from <= span_end(text, from, class) <= text.len(),
    decreases text.len() - from,
{
    if from < text.len() && class.has(text[from]) {
        lemma_span_end(text, from + 1, class);
    }
}

/// A span goes as far as the characters of the class do.
proof fn lemma_span_goes_on(text: Seq<char>, from: int, to: int, class: CharClass)
    requires
        0 <= from <= to <= text.len(),
        forall|i: int| from <= i < to ==> class.has(#[trigger] text[i]),
        to < text.len() ==> !class.has(text[to]),
    ensures
        span_end(text, from, class) == to,
    decreases to - from,
{
    if from < to {
        assert(class.has(text[from]));
        lemma_span_goes_on(text, from + 1, to, class);
    }
}

proof fn lemma_authority_span(text: Seq<char>)
    ensures
        0 <= authority_span(text).0 <= authority_span(text).1 <= text.len(),
{
    lemma_span_end(text, 0, CharClass::BeforeColon);
    let colon = span_end(text, 0, CharClass::BeforeColon);
    if colon < text.len() {
        lemma_span_end(text, colon + 1, CharClass::Slash);
        let slashes_end = span_end(text, colon + 1, CharClass::Slash);
        lemma_span_end(text, slashes_end, CharClass::Authority);
        if slashes_end >= colon + 3 {
            lemma_span_end(text, colon + 3, CharClass::Authority);
        }
    }
}

proof fn lemma_host_weight(text: Seq<char>, start: int, end: int)
    requires
        start <= end,
    ensures
        end - start <= host_weight(text, start, end) <= 18 * (end - start),
    decreases end - start,
{
    if start < end {
        lemma_host_weight(text, start, end - 1);
    }
}

/// No URI of up to 214 characters is turned away, whatever it holds.
pub proof fn law_short_uri_has_a_safe_host(uri: Seq<char>)
    requires
        uri.len() <= 214,
    ensures
        has_safe_host(uri),
{
    let text = taken_text(uri);
    let (start, end) = authority_span(text);
    lemma_taken_characters(uri);
    lemma_authority_span(text);
    lemma_host_weight(text, start, end);
}

/// No URI in ASCII without a percent sign and a hyphen is turned away, whatever its length up to the
/// limit.
pub proof fn law_plain_uri_has_a_safe_host(uri: Seq<char>)
    requires
        uri.len() <= 0x7FFF_FFFF,
        forall|i: int|
            0 <= i < uri.len() ==> #[trigger] uri[i] <= '\u{7F}' && uri[i] != '%' && uri[i] != '-',
    ensures
        has_safe_host(uri),
{
    let text = taken_text(uri);
    let (start, end) = authority_span(text);
    lemma_taken_characters(uri);
    lemma_authority_span(text);
    assert forall|i: int| start <= i < end implies is_plain_at(text, #[trigger] text[i], i, end) by {
        let k = choose|k: int| 0 <= k < uri.len() && uri[k] == text[i];
        assert(uri[k] <= '\u{7F}');
    }
}

/// A host of over 3855 characters with one that is not in ASCII, or with an encoded byte, is turned
/// away, whatever path comes after it.
pub proof fn law_long_foreign_host_is_turned_away(host: Seq<char>, rest: Seq<char>, at: int)
    requires
        host.len() > 3855,
        0 <= at < host.len(),
        host[at] > '\u{7F}' || host[at] == '%',
        forall|i: int|
            0 <= i < host.len() ==> #[trigger] host[i] != '/' && host[i] != '\\' && host[i] != '?'
                && host[i] != '#' && host[i] != '\t' && host[i] != '\n' && host[i] != '\r',
    ensures
        !has_safe_host("file://"@ + host + seq!['/'] + rest),
{
    reveal_strlit("file://");
    reveal_strlit("file");
    let uri = "file://"@ + host + seq!['/'] + rest;
    let start = "file://"@ + host + seq!['/'];
    let n = start.len() as int;
    assert(uri.take(n) == start);
    assert forall|i: int| 0 <= i < n implies #[trigger] start[i] != '\t' && start[i] != '\n'
        && start[i] != '\r' by {
        if 7 <= i < n - 1 {
            assert(start[i] == host[i - 7]);
        }
    }
    lemma_start_is_taken(uri, start);
    let text = taken_text(uri);
    assert(forall|i: int| 0 <= i < n ==> text[i] == text.take(n)[i]);
    assert forall|i: int| 7 <= i < n - 1 implies CharClass::Authority.has(#[trigger] text[i]) by {
        assert(text[i] == host[i - 7]);
    }
    assert(text[n - 1] == '/');
    lemma_span_goes_on(text, 0, 4, CharClass::BeforeColon);
    assert(is_named(text, 4, "file"@));
    assert(text[7] == host[0]);
    lemma_span_goes_on(text, 5, 7, CharClass::Slash);
    lemma_span_goes_on(text, 7, n - 1, CharClass::Authority);
    assert(authority_span(text) == (7int, n - 1));
    lemma_host_weight(text, 7, n - 1);
    assert(text[at + 7] == host[at]);
    assert(!is_plain_at(text, text[at + 7], at + 7, n - 1));
}

/// The text names a drive: a letter and a colon, encoded or not.
pub open spec fn is_drive(text: Seq<char>) -> bool {
    ||| text.len() == 2 && is_ascii_letter(text[0]) && text[1] == ':'
    ||| text.len() == 4 && is_ascii_letter(text[0]) && text[1] == '%' && text[2] == '3' && (text[3]
        == 'A' || text[3] == 'a')
}

/// The path is a drive with or without folders in front of it.
pub open spec fn is_drive_in(path: Seq<char>, folders: Seq<char>, drive: Seq<char>) -> bool {
    &&& path == folders + drive
    &&& is_drive(drive)
    &&& (folders.len() == 0 || folders.last() == '/')
}

/// Of the URL of a local file, only its end can make it half a path.
proof fn lemma_local_url_is_half_at_its_end(path: Seq<char>)
    requires
        forall|i: int| 0 <= i < path.len() ==> #[trigger] path[i] != '?' && path[i] != '#',
    ensures
        is_half_a_windows_path("file:///"@ + path) <==> ends_in_a_drive(
            "file:///"@ + path,
            path.len() as int + 8,
        ),
{
    reveal_strlit("file:///");
    let url = "file:///"@ + path;
    let n = url.len() as int;
    assert forall|i: int| 0 <= i < n implies CharClass::BeforeQuery.has(#[trigger] url[i]) by {
        if i >= 8 {
            assert(url[i] == path[i - 8]);
        }
    }
    lemma_span_goes_on(url, 0, n, CharClass::BeforeQuery);
    assert(url[7] == '/');
}

/// A drive at the end of the URL of a local file is one at the end of its path.
proof fn lemma_drive_at_end_is_in_path(path: Seq<char>) -> (split: (Seq<char>, Seq<char>))
    requires
        ends_in_a_drive("file:///"@ + path, path.len() as int + 8),
    ensures
        is_drive_in(path, split.0, split.1),
{
    reveal_strlit("file:///");
    let url = "file:///"@ + path;
    let m = path.len() as int;
    let long = url[m + 7] != ':';
    let k = if long {
        m - 4
    } else {
        m - 2
    };
    assert(url[5] == '/' && url[6] == '/' && url[7] == '/');
    assert(k >= 0);
    let folders = path.take(k);
    let drive = path.skip(k);
    assert(path == folders + drive);
    assert(drive[0] == url[k + 8] && drive[1] == url[k + 9]);
    if long {
        assert(drive[2] == url[k + 10] && drive[3] == url[k + 11]);
    }
    if k > 0 {
        assert(folders.last() == url[k + 7]);
    }
    (folders, drive)
}

/// A drive at the end of the path of a local file is one at the end of its URL.
proof fn lemma_drive_in_path_is_at_end(folders: Seq<char>, drive: Seq<char>)
    requires
        is_drive_in(folders + drive, folders, drive),
    ensures
        ends_in_a_drive("file:///"@ + (folders + drive), (folders.len() + drive.len() + 8) as int),
{
    reveal_strlit("file:///");
    let url = "file:///"@ + (folders + drive);
    let k = folders.len() as int;
    assert(url[k + 7] == '/') by {
        if k > 0 {
            assert(url[k + 7] == folders[k - 1]);
        }
    }
    assert(url[k + 8] == drive[0] && url[k + 9] == drive[1]);
    if drive.len() == 4 {
        assert(url[k + 10] == drive[2] && url[k + 11] == drive[3]);
    }
}

/// The URL of a local file is half a path on Windows if and only if its path ends in a drive.
pub proof fn law_local_path_is_half_where_it_ends_in_a_drive(path: Seq<char>)
    requires
        forall|i: int| 0 <= i < path.len() ==> #[trigger] path[i] != '?' && path[i] != '#',
    ensures
        is_half_a_windows_path("file:///"@ + path) <==> exists|folders: Seq<char>, drive: Seq<char>|
            is_drive_in(path, folders, drive),
{
    lemma_local_url_is_half_at_its_end(path);
    if ends_in_a_drive("file:///"@ + path, path.len() as int + 8) {
        let (folders, drive) = lemma_drive_at_end_is_in_path(path);
        assert(is_drive_in(path, folders, drive));
    }
    if exists|folders: Seq<char>, drive: Seq<char>| is_drive_in(path, folders, drive) {
        let (folders, drive) = choose|folders: Seq<char>, drive: Seq<char>|
            is_drive_in(path, folders, drive);
        lemma_drive_in_path_is_at_end(folders, drive);
    }
}

/// The URL of a server is half a path on Windows where no share is named.
pub proof fn law_server_is_half_a_path_without_a_share(host: Seq<char>, path: Seq<char>)
    requires
        host.len() > 0,
        forall|i: int|
            0 <= i < host.len() ==> #[trigger] host[i] != '/' && host[i] != '?' && host[i] != '#',
        forall|i: int| 0 <= i < path.len() ==> #[trigger] path[i] != '?' && path[i] != '#',
    ensures
        path.len() == 0 || path[0] == '/' ==> is_half_a_windows_path(
            "file://"@ + host + seq!['/'] + path,
        ),
        path.len() > 0 && path[0] != '/' && path[0] != '%' && path.last() != ':' && path.last()
            != 'A' && path.last() != 'a' ==> !is_half_a_windows_path(
            "file://"@ + host + seq!['/'] + path,
        ),
{
    reveal_strlit("file://");
    let url = "file://"@ + host + seq!['/'] + path;
    let n = url.len() as int;
    let slash = 7 + host.len() as int;
    assert(url[slash] == '/');
    assert forall|i: int| 7 <= i < slash implies url[i] == host[i - 7] && CharClass::BeforeSlash.has(
        #[trigger] url[i],
    ) by {}
    assert forall|i: int| 0 <= i < n implies CharClass::BeforeQuery.has(#[trigger] url[i]) by {
        if 7 <= i < slash {
            assert(url[i] == host[i - 7]);
        } else if i > slash {
            assert(url[i] == path[i - slash - 1]);
        }
    }
    lemma_span_goes_on(url, 0, n, CharClass::BeforeQuery);
    lemma_span_goes_on(url, 7, slash, CharClass::BeforeSlash);
    assert(url.take(7) == "file://"@);
    assert(url[7] == host[0]);
    if path.len() > 0 {
        assert(url[slash + 1] == path[0]);
        assert(url[n - 1] == path.last());
    }
}

} // verus!
