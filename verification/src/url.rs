//! Routes: the path and query part of a request URI, built segment by
//! segment and attribute by attribute.

use crate::decimal::digit_char;
use vstd::prelude::*;
use vstd::string::*;
use vstd::utf8::{encode_utf8, is_ascii_chars, is_ascii_chars_encode_utf8};

verus! {

/// Whether a byte cannot stand for itself in a path segment: the control
/// bytes, the bytes above `~`, and space, `"`, `#`, `%`, `/`, `<`, `>`,
/// `?`, `` ` ``, `{` and `}`.
pub open spec fn is_escaped_in_segment(byte: u8) -> bool {
    ||| byte < 0x20
    ||| byte > 0x7E
    ||| byte == 0x20
    ||| byte == 0x22
    ||| byte == 0x23
    ||| byte == 0x25
    ||| byte == 0x2F
    ||| byte == 0x3C
    ||| byte == 0x3E
    ||| byte == 0x3F
    ||| byte == 0x60
    ||| byte == 0x7B
    ||| byte == 0x7D
}

/// The upper-case hexadecimal digit of a number below sixteen.
pub open spec fn upper_hex(n: nat) -> char {
    if n < 10 {
        digit_char(n)
    } else if n == 10 {
        'A'
    } else if n == 11 {
        'B'
    } else if n == 12 {
        'C'
    } else if n == 13 {
        'D'
    } else if n == 14 {
        'E'
    } else {
        'F'
    }
}

/// One byte of a path segment as it stands in a URI: `%` and its two
/// hexadecimal digits where it is escaped, else the byte's own character.
pub open spec fn segment_byte_text(byte: u8) -> Seq<char> {
    if is_escaped_in_segment(byte) {
        seq!['%', upper_hex((byte / 16) as nat), upper_hex((byte % 16) as nat)]
    } else {
        seq![byte as char]
    }
}

/// The bytes of a path segment as they stand in a URI, one after another.
pub open spec fn segment_bytes_text(bytes: Seq<u8>) -> Seq<char>
    decreases bytes.len(),
{
    if bytes.len() == 0 {
        Seq::empty()
    } else {
        segment_bytes_text(bytes.drop_last()) + segment_byte_text(bytes.last())
    }
}

/// The percent-encoding of a path segment: its UTF-8 bytes, each as it
/// stands in a URI.
pub open spec fn path_segment_encoding(segment: Seq<char>) -> Seq<char> {
    segment_bytes_text(encode_utf8(segment))
}

/// The percent-encodings of path segments, in their order.
pub open spec fn encoded_segments(segments: Seq<Seq<char>>) -> Seq<Seq<char>> {
    segments.map_values(|s: Seq<char>| path_segment_encoding(s))
}

/// Whether every character of a text stands for itself in a path segment.
pub open spec fn is_plain_segment(segment: Seq<char>) -> bool {
    forall|i: int|
        0 <= i < segment.len() ==> '\0' <= #[trigger] segment[i] <= '\u{7f}'
            && !is_escaped_in_segment(segment[i] as u8)
}

/// The parts in order, with `sep` between each two neighbours.
pub open spec fn joined(parts: Seq<Seq<char>>, sep: Seq<char>) -> Seq<char>
    decreases parts.len(),
{
    if parts.len() == 0 {
        Seq::empty()
    } else if parts.len() == 1 {
        parts[0]
    } else {
        joined(parts.drop_last(), sep) + sep + parts.last()
    }
}

/// One query attribute as it stands in a URI: `key=value`.
pub open spec fn attribute_text(attribute: (Seq<char>, Seq<char>)) -> Seq<char> {
    attribute.0 + seq!['='] + attribute.1
}

/// The attributes as they stand in a URI, each as `key=value`.
pub open spec fn attribute_texts(attributes: Seq<(Seq<char>, Seq<char>)>) -> Seq<Seq<char>> {
    attributes.map_values(|a: (Seq<char>, Seq<char>)| attribute_text(a))
}

/// The contents of the strings of a vector.
pub open spec fn texts(parts: Seq<String>) -> Seq<Seq<char>> {
    parts.map_values(|s: String| s@)
}

/// The contents of a vector of key and value pairs.
pub open spec fn pairs(attributes: Seq<(String, String)>) -> Seq<(Seq<char>, Seq<char>)> {
    attributes.map_values(|a: (String, String)| (a.0@, a.1@))
}

/// `text` is what `value` displays as.
pub open spec fn displayed<T: core::fmt::Display + ?Sized>(value: &T, text: Seq<char>) -> bool {
    exists|s: String| s@ == text && #[trigger] to_string_from_display_ensures::<T>(value, s)
}

/// The mathematical content of a [`Route`].
pub struct RouteView {
    /// The path segments, already percent-encoded, first to last.
    pub segments: Seq<Seq<char>>,
    /// The query attributes as key and value, in insertion order.
    pub attributes: Seq<(Seq<char>, Seq<char>)>,
}

impl RouteView {
    /// The path: a leading `/`, then the segments with `/` between them.
    pub open spec fn path(self) -> Seq<char> {
        seq!['/'] + joined(self.segments, seq!['/'])
    }

    /// The query: nothing without attributes, else `?` and the
    /// attributes as `key=value` with `&` between them.
    pub open spec fn query(self) -> Seq<char> {
        if self.attributes.len() == 0 {
            Seq::empty()
        } else {
            seq!['?'] + joined(attribute_texts(self.attributes), seq!['&'])
        }
    }

    /// The route as it stands in a URI: the path, then the query.
    pub open spec fn render(self) -> Seq<char> {
        self.path() + self.query()
    }
}

/// An ordered list of path segments and an ordered list of query
/// attributes.
#[derive(Clone, Debug, PartialEq, Eq)]
pub struct Route {
    segments: Vec<String>,
    attributes: Vec<(String, String)>,
}

impl View for Route {
    type V = RouteView;

    closed spec fn view(&self) -> RouteView {
        RouteView { segments: texts(self.segments@), attributes: pairs(self.attributes@) }
    }
}

/// Calls `percent_encoding::utf8_percent_encode` with
/// `PATH_SEGMENT_ENCODE_SET` and collects what it yields. The contract
/// claims what the set and the encoder are documented to do: every byte
/// of the segment's UTF-8 encoding that is in the set comes out as `%`
/// and two upper-case hexadecimal digits, every other byte as itself.
#[verifier::external_body]
fn encode_path_segment(segment: &str) -> (r: String)
    ensures
        r@ == path_segment_encoding(segment@),
{
    percent_encoding::utf8_percent_encode(segment, percent_encoding::PATH_SEGMENT_ENCODE_SET)
        .to_string()
}

/// Calls `itertools::join` on the strings of `parts`. The result holds the
/// strings in order with `sep` between each two neighbours, and is empty
/// for no strings.
#[verifier::external_body]
fn join_strings(parts: &Vec<String>, sep: &str) -> (r: String)
    ensures
        r@ == joined(texts(parts@), sep@),
{
    itertools::join(parts.iter(), sep)
}

impl Route {
    /// The empty route: no segment, no attribute.
    pub fn new() -> (r: Route)
        ensures
            r@.segments == Seq::<Seq<char>>::empty(),
            r@.attributes == Seq::<(Seq<char>, Seq<char>)>::empty(),
    {
        let r = Route { segments: Vec::new(), attributes: Vec::new() };
        assert(r@.segments =~= Seq::<Seq<char>>::empty());
        assert(r@.attributes =~= Seq::<(Seq<char>, Seq<char>)>::empty());
        r
    }

    /// Appends a segment that is already fit for a path, as it is.
    pub fn add_encoded_segment(self, encoded: String) -> (r: Route)
        ensures
            r@.segments == self@.segments.push(encoded@),
            r@.attributes == self@.attributes,
    {
        let mut route = self;
        route.segments.push(encoded);
        assert(route@.segments =~= self@.segments.push(encoded@));
        route
    }

    /// Appends `segment` to the path, percent-encoded for a path segment.
    pub fn add_segment(self, segment: &str) -> (r: Route)
        ensures
            r@.segments == self@.segments.push(path_segment_encoding(segment@)),
            r@.attributes == self@.attributes,
    {
        let encoded = encode_path_segment(segment);
        self.add_encoded_segment(encoded)
    }

    /// Appends the attribute `key` with the text `value` to the query.
    pub fn add_attribute_text(self, key: &str, value: String) -> (r: Route)
        ensures
            r@.segments == self@.segments,
            r@.attributes == self@.attributes.push((key@, value@)),
    {
        let mut route = self;
        route.attributes.push((String::from_str(key), value));
        assert(route@.attributes =~= self@.attributes.push((key@, value@)));
        route
    }

    /// Appends the attribute `key` to the query, with `value` as it
    /// displays.
    pub fn add_attribute_value<T: core::fmt::Display + ?Sized>(self, key: &str, value: &T) -> (r:
        Route)
        ensures
            r@.segments == self@.segments,
            r@.attributes.len() == self@.attributes.len() + 1,
            r@.attributes.drop_last() == self@.attributes,
            r@.attributes.last().0 == key@,
            displayed(value, r@.attributes.last().1),
    {
        let text = value.to_string();
        let r = self.add_attribute_text(key, text);
        assert(r@.attributes.drop_last() =~= self@.attributes);
        r
    }

    /// Renders the route: `/seg1/seg2?key1=val1&key2=val2`, without the
    /// `?` where there is no attribute.
    pub fn to_string(&self) -> (r: String)
        ensures
            r@ == self@.render(),
    {
        proof {
            reveal_strlit("/");
            reveal_strlit("=");
            reveal_strlit("?");
            reveal_strlit("&");
        }
        let mut out = String::from_str("/");
        let path = join_strings(&self.segments, "/");
        out.append(path.as_str());
        assert("/"@ =~= seq!['/']);
        assert(out@ =~= self@.path());
        if self.attributes.len() > 0 {
            let mut parts: Vec<String> = Vec::new();
            let mut i: usize = 0;
            while i < self.attributes.len()
                invariant
                    i <= self.attributes.len(),
                    "="@ == seq!['='],
                    parts@.len() == i,
                    forall|j: int|
                        0 <= j < i ==> (#[trigger] parts@[j])@ == attribute_text(
                            pairs(self.attributes@)[j],
                        ),
                decreases self.attributes.len() - i,
            {
                let attribute = &self.attributes[i];
                let mut part = attribute.0.clone();
                part.append("=");
                part.append(attribute.1.as_str());
                assert(part@ =~= attribute_text(pairs(self.attributes@)[i as int]));
                parts.push(part);
                i += 1;
            }
            assert(texts(parts@) =~= attribute_texts(pairs(self.attributes@)));
            let query = join_strings(&parts, "&");
            out.append("?");
            out.append(query.as_str());
            assert("&"@ =~= seq!['&']);
            assert("?"@ =~= seq!['?']);
            assert(out@ =~= self@.render());
        }
        assert(out@ =~= self@.render());
        out
    }
}

/// Bytes of which none is escaped stand as their own characters.
proof fn unescaped_bytes_stand_for_themselves(bytes: Seq<u8>)
    requires
        forall|i: int| 0 <= i < bytes.len() ==> !is_escaped_in_segment(#[trigger] bytes[i]),
    ensures
        segment_bytes_text(bytes) == Seq::new(bytes.len(), |i: int| bytes[i] as char),
    decreases bytes.len(),
{
    if bytes.len() > 0 {
        unescaped_bytes_stand_for_themselves(bytes.drop_last());
        assert(segment_bytes_text(bytes) =~= Seq::new(bytes.len(), |i: int| bytes[i] as char));
    } else {
        assert(segment_bytes_text(bytes) =~= Seq::new(bytes.len(), |i: int| bytes[i] as char));
    }
}

/// Percent-encoding leaves a plain segment as it is: a product identifier
/// such as `BTC-USD` stands in the path as written.
pub proof fn plain_segment_is_unchanged(segment: Seq<char>)
    requires
        is_plain_segment(segment),
    ensures
        path_segment_encoding(segment) == segment,
{
    assert(is_ascii_chars(segment));
    is_ascii_chars_encode_utf8(segment);
    let bytes = encode_utf8(segment);
    assert forall|i: int| 0 <= i < bytes.len() implies !is_escaped_in_segment(
        #[trigger] bytes[i],
    ) by {
        assert(bytes[i] == segment[i] as u8);
    }
    unescaped_bytes_stand_for_themselves(bytes);
    assert forall|i: int| 0 <= i < segment.len() implies (#[trigger] bytes[i]) as char
        == segment[i] by {
        assert(bytes[i] == segment[i] as u8);
        assert('\0' <= segment[i] <= '\u{7f}');
    }
    assert(path_segment_encoding(segment) =~= segment);
}

/// Plain segments are their own encodings.
pub proof fn plain_segments_are_unchanged(segments: Seq<Seq<char>>)
    requires
        forall|i: int| 0 <= i < segments.len() ==> is_plain_segment(#[trigger] segments[i]),
    ensures
        encoded_segments(segments) == segments,
{
    let encoded = encoded_segments(segments);
    assert forall|i: int| 0 <= i < segments.len() implies #[trigger] encoded[i]
        == segments[i] by {
        plain_segment_is_unchanged(segments[i]);
    }
    assert(encoded =~= segments);
}

/// A route of plain segments and no attribute renders as its segments
/// are written, each behind a `/`.
pub proof fn plain_route_renders_as_written(segments: Seq<Seq<char>>)
    requires
        segments.len() > 0,
        forall|i: int| 0 <= i < segments.len() ==> is_plain_segment(#[trigger] segments[i]),
    ensures
        (RouteView { segments: encoded_segments(segments), attributes: Seq::empty() }).render()
            == seq!['/'] + joined(segments, seq!['/']),
{
    plain_segments_are_unchanged(segments);
    let route = RouteView { segments: encoded_segments(segments), attributes: Seq::empty() };
    assert(route.render() =~= seq!['/'] + joined(segments, seq!['/']));
}

/// Three segments are joined as `a/b/c`.
pub proof fn joined_three(a: Seq<char>, b: Seq<char>, c: Seq<char>, sep: Seq<char>)
    ensures
        joined(seq![a, b, c], sep) == a + sep + b + sep + c,
{
    let parts = seq![a, b, c];
    assert(parts.drop_last() =~= seq![a, b]);
    assert(seq![a, b].drop_last() =~= seq![a]);
    assert(joined(seq![a], sep) == a);
    assert(joined(seq![a, b], sep) == a + sep + b);
}

/// What one more attribute adds to a rendered route: `?key=value` where
/// it is the first attribute, `&key=value` behind the others.
pub proof fn attribute_extends_rendering(route: RouteView, key: Seq<char>, value: Seq<char>)
    ensures
        (RouteView {
            segments: route.segments,
            attributes: route.attributes.push((key, value)),
        }).render() == route.render() + (if route.attributes.len() == 0 {
            seq!['?']
        } else {
            seq!['&']
        }) + key + seq!['='] + value,
{
    let attributes = route.attributes.push((key, value));
    let longer = RouteView { segments: route.segments, attributes };
    let texts = attribute_texts(attributes);
    assert(texts.drop_last() =~= attribute_texts(route.attributes));
    assert(texts.last() == attribute_text((key, value)));
    if route.attributes.len() == 0 {
        assert(joined(texts, seq!['&']) =~= key + seq!['='] + value);
        assert(longer.render() =~= route.render() + seq!['?'] + key + seq!['='] + value);
    } else {
        assert(joined(texts, seq!['&']) =~= joined(attribute_texts(route.attributes), seq!['&'])
            + seq!['&'] + (key + seq!['='] + value));
        assert(longer.render() =~= route.render() + seq!['&'] + key + seq!['='] + value);
    }
}

/// A text displays as itself: an attribute added from a `str` holds that
/// very text.
pub proof fn displayed_str_is_itself(value: &str, text: Seq<char>)
    requires
        displayed::<str>(value, text),
    ensures
        text == value@,
{
    broadcast use to_string_from_display_ensures_for_str;

}

} // verus!
