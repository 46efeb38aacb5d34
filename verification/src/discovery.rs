//! Passive discovery: reading the announcements that printers broadcast on
//! the local network, and the running flag of the listener.

use vstd::prelude::*;
use vstd::utf8::{decode_utf8, valid_utf8};
use crate::text::{
    all_dec_digits, chars_of, dec_value, scan_dec, slice_equals, spec_text, string_of,
};

verus! {

/// Notification type that printers of the vendor announce.
pub const BAMBU_NT: &'static str = "urn:bambulab-com:device:3dprinter";

/// First port on which the vendor's printers announce themselves.
pub const BAMBU_SSDP_PORT_A: u16 = 1990;

/// Second port on which the vendor's printers announce themselves.
pub const BAMBU_SSDP_PORT_B: u16 = 2021;

/// Milliseconds between two rounds of the listener.
pub const LISTEN_INTERVAL_MS: u64 = 100;

/// Milliseconds that one receive waits for a packet.
pub const RECEIVE_TIMEOUT_MS: u64 = 500;

/// Largest announcement read, in bytes.
pub const PACKET_BUFFER_SIZE: usize = 1024;

/// The multicast group of the announcements.
pub fn multicast_group() -> (group: [u8; 4])
    ensures
        group@ == seq![239u8, 255u8, 255u8, 250u8],
{
    let group: [u8; 4] = [239, 255, 255, 250];
    assert(group@ =~= seq![239u8, 255u8, 255u8, 250u8]);
    group
}

/// A printer seen on the network.
#[derive(Debug, Clone)]
pub struct DiscoveredPrinter {
    pub serial: String,
    pub name: Option<String>,
    /// The four numbers of the address, first to last.
    pub ip_address: [u8; 4],
    pub model: Option<String>,
    pub model_code: Option<String>,
}

/// A discovered printer as a mathematical value.
pub struct DiscoveredView {
    pub serial: Seq<char>,
    pub name: Option<Seq<char>>,
    pub ip_address: Seq<u8>,
    pub model: Option<Seq<char>>,
    pub model_code: Option<Seq<char>>,
}

impl View for DiscoveredPrinter {
    type V = DiscoveredView;

    open spec fn view(&self) -> DiscoveredView {
        DiscoveredView {
            serial: self.serial@,
            name: spec_text(self.name),
            ip_address: self.ip_address@,
            model: spec_text(self.model),
            model_code: spec_text(self.model_code),
        }
    }
}

// ---------------------------------------------------------------------
// Model names
// ---------------------------------------------------------------------

/// The model name that a model code stands for; a code that the table does
/// not hold stands for "Unknown".
pub open spec fn spec_parse_model(code: Seq<char>) -> Seq<char> {
    if code == "3DPrinter-X1"@ {
        "X1"@
    } else if code == "3DPrinter-X1-Carbon"@ || code == "BL-P001"@ {
        "X1 Carbon"@
    } else if code == "C13"@ {
        "X1E"@
    } else if code == "C11"@ {
        "P1P"@
    } else if code == "C12"@ {
        "P1S"@
    } else if code == "N7"@ {
        "P2S"@
    } else if code == "N1"@ {
        "A1 Mini"@
    } else if code == "N2"@ {
        "A1"@
    } else if code == "O1D"@ {
        "H2D"@
    } else if code == "H2S"@ {
        "H2S"@
    } else if code == "H2C"@ {
        "H2C"@
    } else {
        "Unknown"@
    }
}

/// Parse model code to human-readable model name.
pub fn parse_model(model_code: &str) -> (model: &'static str)
    ensures
        model@ == spec_parse_model(model_code@),
{
    let chars = chars_of(model_code);
    let n: usize = chars.len();
    assert(chars@.subrange(0, n as int) =~= model_code@);
    if slice_equals(&chars, 0, n, "3DPrinter-X1") {
        "X1"
    } else if slice_equals(&chars, 0, n, "3DPrinter-X1-Carbon") || slice_equals(
        &chars,
        0,
        n,
        "BL-P001",
    ) {
        "X1 Carbon"
    } else if slice_equals(&chars, 0, n, "C13") {
        "X1E"
    } else if slice_equals(&chars, 0, n, "C11") {
        "P1P"
    } else if slice_equals(&chars, 0, n, "C12") {
        "P1S"
    } else if slice_equals(&chars, 0, n, "N7") {
        "P2S"
    } else if slice_equals(&chars, 0, n, "N1") {
        "A1 Mini"
    } else if slice_equals(&chars, 0, n, "N2") {
        "A1"
    } else if slice_equals(&chars, 0, n, "O1D") {
        "H2D"
    } else if slice_equals(&chars, 0, n, "H2S") {
        "H2S"
    } else if slice_equals(&chars, 0, n, "H2C") {
        "H2C"
    } else {
        "Unknown"
    }
}

// ---------------------------------------------------------------------
// Lines, headers and values
// ---------------------------------------------------------------------

/// Whether `c` is white space, as Unicode defines it.
pub open spec fn spec_is_whitespace(c: char) -> bool {
    let u = c as u32;
    (0x09 <= u <= 0x0d) || u == 0x20 || u == 0x85 || u == 0xa0 || u == 0x1680 || (0x2000 <= u
        <= 0x200a) || u == 0x2028 || u == 0x2029 || u == 0x202f || u == 0x205f || u == 0x3000
}

/// Whether `c` is white space, as Unicode defines it.
pub fn is_whitespace(c: char) -> (white: bool)
    ensures
        white == spec_is_whitespace(c),
{
    let u: u32 = c as u32;
    (0x09 <= u && u <= 0x0d) || u == 0x20 || u == 0x85 || u == 0xa0 || u == 0x1680 || (0x2000 <= u
        && u <= 0x200a) || u == 0x2028 || u == 0x2029 || u == 0x202f || u == 0x205f || u == 0x3000
}

/// Where `c` first stands in `s`; the length of `s` where it stands nowhere.
pub open spec fn spec_index_of(s: Seq<char>, c: char) -> int
    decreases s.len(),
{
    if s.len() == 0 {
        0
    } else if s[0] == c {
        0
    } else {
        1 + spec_index_of(s.drop_first(), c)
    }
}

/// `s` without the white space at its end.
pub open spec fn spec_trim_end(s: Seq<char>) -> Seq<char>
    decreases s.len(),
{
    if s.len() > 0 && spec_is_whitespace(s.last()) {
        spec_trim_end(s.drop_last())
    } else {
        s
    }
}

/// `s` without the white space at its start.
pub open spec fn spec_trim_start(s: Seq<char>) -> Seq<char>
    decreases s.len(),
{
    if s.len() > 0 && spec_is_whitespace(s[0]) {
        spec_trim_start(s.drop_first())
    } else {
        s
    }
}

/// `s` without the white space at either end.
pub open spec fn spec_trim(s: Seq<char>) -> Seq<char> {
    spec_trim_start(spec_trim_end(s))
}

/// The value that a line gives the header `key`, or `found` where the line
/// is not a line of that header. A header line is the key, one space, and
/// the value; the key is all that stands before the first space, and the
/// value is what follows it, without white space at either end.
pub open spec fn spec_line_value(line: Seq<char>, key: Seq<char>, found: Option<Seq<char>>)
    -> Option<Seq<char>> {
    let space = spec_index_of(line, ' ');
    if 0 <= space < line.len() && line.subrange(0, space) == key {
        Some(spec_trim(line.subrange(space + 1, line.len() as int)))
    } else {
        found
    }
}

/// The value of the header `key` in a text of lines, where `found` is what
/// earlier lines gave: the last line of the header decides. Lines end at a
/// line feed.
pub open spec fn spec_header_from(text: Seq<char>, key: Seq<char>, found: Option<Seq<char>>)
    -> Option<Seq<char>>
    decreases text.len(),
{
    let end = spec_index_of(text, '\n');
    if end < 0 || end >= text.len() {
        spec_line_value(text, key, found)
    } else {
        spec_header_from(
            text.subrange(end + 1, text.len() as int),
            key,
            spec_line_value(text.subrange(0, end), key, found),
        )
    }
}

/// The value of the header `key` in a packet text, if the packet has that
/// header.
pub open spec fn spec_header(text: Seq<char>, key: Seq<char>) -> Option<Seq<char>> {
    spec_header_from(text, key, None)
}

/// The value of a header, empty where the packet does not have it.
pub open spec fn spec_header_or_empty(text: Seq<char>, key: Seq<char>) -> Seq<char> {
    match spec_header(text, key) {
        Some(value) => value,
        None => Seq::empty(),
    }
}

/// The value of the header `first`, or else of the header `second`.
pub open spec fn spec_either_header(text: Seq<char>, first: Seq<char>, second: Seq<char>)
    -> Option<Seq<char>> {
    match spec_header(text, first) {
        Some(value) => Some(value),
        None => spec_header(text, second),
    }
}

/// Whether `needle` stands somewhere in `hay`.
pub open spec fn spec_contains(hay: Seq<char>, needle: Seq<char>) -> bool {
    exists|i: int|
        0 <= i && i + needle.len() <= hay.len() && #[trigger] hay.subrange(
            i,
            i + needle.len(),
        ) == needle
}

/// Finds the first `c` in `chars[from..to]`.
fn find_char(chars: &Vec<char>, from: usize, to: usize, c: char) -> (at: usize)
    requires
        from <= to <= chars.len(),
    ensures
        from <= at <= to,
        at - from == spec_index_of(chars@.subrange(from as int, to as int), c),
{
    let mut i: usize = from;
    while i < to
        invariant
            from <= i <= to <= chars.len(),
            spec_index_of(chars@.subrange(from as int, to as int), c) == (i - from)
                + spec_index_of(chars@.subrange(i as int, to as int), c),
        decreases to - i,
    {
        let ghost rest = chars@.subrange(i as int, to as int);
        assert(rest[0] == chars@[i as int]);
        if chars[i] == c {
            return i;
        }
        assert(rest.drop_first() =~= chars@.subrange(i + 1, to as int));
        i = i + 1;
    }
    i
}

/// The part of `chars[from..to]` that is left when the white space at both
/// ends is taken away.
pub(crate) fn trim_range(chars: &Vec<char>, from: usize, to: usize) -> (range: (usize, usize))
    requires
        from <= to <= chars.len(),
    ensures
        from <= range.0 <= range.1 <= to,
        chars@.subrange(range.0 as int, range.1 as int) == spec_trim(
            chars@.subrange(from as int, to as int),
        ),
{
    let mut b: usize = to;
    while b > from && is_whitespace(chars[b - 1])
        invariant
            from <= b <= to <= chars.len(),
            spec_trim_end(chars@.subrange(from as int, to as int)) == spec_trim_end(
                chars@.subrange(from as int, b as int),
            ),
        decreases b,
    {
        assert(chars@.subrange(from as int, b as int).drop_last() =~= chars@.subrange(
            from as int,
            b - 1,
        ));
        b = b - 1;
    }
    assert(spec_trim_end(chars@.subrange(from as int, b as int)) == chars@.subrange(
        from as int,
        b as int,
    )) by {
        if b > from {
            assert(chars@.subrange(from as int, b as int).last() == chars@[b - 1]);
        }
    }
    let mut a: usize = from;
    while a < b && is_whitespace(chars[a])
        invariant
            from <= a <= b <= to <= chars.len(),
            spec_trim_start(chars@.subrange(from as int, b as int)) == spec_trim_start(
                chars@.subrange(a as int, b as int),
            ),
        decreases b - a,
    {
        assert(chars@.subrange(a as int, b as int).drop_first() =~= chars@.subrange(
            a + 1,
            b as int,
        ));
        a = a + 1;
    }
    assert(spec_trim_start(chars@.subrange(a as int, b as int)) == chars@.subrange(
        a as int,
        b as int,
    )) by {
        if a < b {
            assert(chars@.subrange(a as int, b as int)[0] == chars@[a as int]);
        }
    }
    (a, b)
}

/// Where the value of the header `key` stands in the packet text, if the
/// packet has that header.
fn header_range(chars: &Vec<char>, key: &str) -> (range: Option<(usize, usize)>)
    ensures
        range.is_some() == spec_header(chars@, key@).is_some(),
        range matches Some(r) ==> r.0 <= r.1 <= chars.len() && Some(
            chars@.subrange(r.0 as int, r.1 as int),
        ) == spec_header(chars@, key@),
{
    let n: usize = chars.len();
    let mut start: usize = 0;
    let mut found: Option<(usize, usize)> = None;
    let mut done: bool = false;
    let ghost mut value: Option<Seq<char>> = None;
    assert(chars@.subrange(0, n as int) =~= chars@);
    while !done
        invariant
            n == chars.len(),
            start <= n,
            found.is_some() == value.is_some(),
            found matches Some(r) ==> r.0 <= r.1 <= n && Some(
                chars@.subrange(r.0 as int, r.1 as int),
            ) == value,
            !done ==> spec_header(chars@, key@) == spec_header_from(
                chars@.subrange(start as int, n as int),
                key@,
                value,
            ),
            done ==> spec_header(chars@, key@) == value,
        decreases n - start + (if done { 0int } else { 1int }),
    {
        let ghost text = chars@.subrange(start as int, n as int);
        let end: usize = find_char(chars, start, n, '\n');
        let ghost line = chars@.subrange(start as int, end as int);
        let space: usize = find_char(chars, start, end, ' ');
        let mut next: Option<(usize, usize)> = found;
        if space < end && slice_equals(chars, start, space, key) {
            next = Some(trim_range(chars, space + 1, end));
        }
        proof {
            assert(line.subrange(0, space - start) =~= chars@.subrange(start as int, space as int));
            if space < end {
                assert(line.subrange(space - start + 1, line.len() as int) =~= chars@.subrange(
                    space + 1,
                    end as int,
                ));
            }
            if end < n {
                assert(text.subrange(0, end - start) =~= line);
                assert(text.subrange(end - start + 1, text.len() as int) =~= chars@.subrange(
                    end + 1,
                    n as int,
                ));
            } else {
                assert(text =~= line);
            }
            value = spec_line_value(line, key@, value);
        }
        found = next;
        if end >= n {
            done = true;
        } else {
            start = end + 1;
        }
    }
    found
}

/// The text of a header value, empty where the packet lacks the header.
fn header_or_empty(chars: &Vec<char>, key: &str) -> (value: String)
    ensures
        value@ == spec_header_or_empty(chars@, key@),
{
    match header_range(chars, key) {
        Some(r) => string_of(chars, r.0, r.1),
        None => String::new(),
    }
}

/// The text of the header `first`, or else of the header `second`.
fn either_header(chars: &Vec<char>, first: &str, second: &str) -> (value: Option<String>)
    ensures
        spec_text(value) == spec_either_header(chars@, first@, second@),
{
    match header_range(chars, first) {
        Some(r) => Some(string_of(chars, r.0, r.1)),
        None => match header_range(chars, second) {
            Some(r) => Some(string_of(chars, r.0, r.1)),
            None => None,
        },
    }
}

/// Whether `word` stands somewhere in `chars`.
fn contains_word(chars: &Vec<char>, word: &str) -> (present: bool)
    ensures
        present == spec_contains(chars@, word@),
{
    let n: usize = chars.len();
    let w: usize = word.unicode_len();
    if w > n {
        return false;
    }
    let last: usize = n - w;
    let mut i: usize = 0;
    while i < last
        invariant
            n == chars.len(),
            w == word@.len(),
            w <= n,
            last == n - w,
            i <= last,
            forall|j: int| 0 <= j < i ==> #[trigger] chars@.subrange(j, j + w) != word@,
        decreases last - i,
    {
        if slice_equals(chars, i, i + w, word) {
            return true;
        }
        i = i + 1;
    }
    let present = slice_equals(chars, last, n, word);
    proof {
        if present {
            assert(chars@.subrange(last as int, last + w) == word@);
        } else {
            assert forall|j: int| 0 <= j && j + word@.len() <= chars@.len() implies #[trigger] chars@.subrange(
                j,
                j + word@.len(),
            ) != word@ by {
                if j == last {
                    assert(chars@.subrange(j, j + w) == chars@.subrange(last as int, n as int));
                }
            }
        }
    }
    present
}

// ---------------------------------------------------------------------
// Addresses
// ---------------------------------------------------------------------

/// The number that one part of a dotted address denotes: one to three
/// decimal digits, no zero in front of another digit, at most 255.
pub open spec fn spec_octet(s: Seq<char>) -> Option<u8> {
    if 1 <= s.len() <= 3 && all_dec_digits(s) && (s.len() == 1 || s[0] != '0') && dec_value(s)
        <= 255 {
        Some(dec_value(s) as u8)
    } else {
        None
    }
}

/// The numbers that a text of `parts` dotted parts denotes: a dot between
/// each two parts, and nothing else.
pub open spec fn spec_dotted(s: Seq<char>, parts: nat) -> Option<Seq<u8>>
    decreases parts,
{
    if parts == 0 {
        None
    } else if parts == 1 {
        match spec_octet(s) {
            Some(v) => Some(seq![v]),
            None => None,
        }
    } else {
        let dot = spec_index_of(s, '.');
        if dot < 0 || dot >= s.len() {
            None
        } else {
            match (
                spec_octet(s.subrange(0, dot)),
                spec_dotted(s.subrange(dot + 1, s.len() as int), (parts - 1) as nat),
            ) {
                (Some(v), Some(rest)) => Some(seq![v] + rest),
                _ => None,
            }
        }
    }
}

/// The address that a dotted text denotes: four parts.
pub open spec fn spec_parse_ipv4(s: Seq<char>) -> Option<Seq<u8>> {
    spec_dotted(s, 4)
}

/// Reads one part of a dotted address from `chars[from..to]`.
fn octet(chars: &Vec<char>, from: usize, to: usize) -> (value: Option<u8>)
    requires
        from <= to <= chars.len(),
    ensures
        value == spec_octet(chars@.subrange(from as int, to as int)),
{
    if to - from < 1 || to - from > 3 {
        return None;
    }
    if to - from > 1 && chars[from] == '0' {
        return None;
    }
    match scan_dec(chars, from, to, 255) {
        Some(v) => Some(v as u8),
        None => None,
    }
}

/// Reads `parts` dotted parts from `chars[from..to]` and appends their
/// numbers to `out`.
fn dotted(chars: &Vec<char>, from: usize, to: usize, parts: u8, out: &mut Vec<u8>) -> (ok: bool)
    requires
        from <= to <= chars.len(),
    ensures
        ok == spec_dotted(chars@.subrange(from as int, to as int), parts as nat).is_some(),
        ok ==> final(out)@ == old(out)@ + spec_dotted(
            chars@.subrange(from as int, to as int),
            parts as nat,
        ).unwrap(),
    decreases parts,
{
    let ghost s = chars@.subrange(from as int, to as int);
    if parts == 0 {
        return false;
    }
    if parts == 1 {
        match octet(chars, from, to) {
            Some(v) => {
                out.push(v);
                assert(out@ =~= old(out)@ + seq![v]);
                return true;
            },
            None => {
                return false;
            },
        }
    }
    let dot: usize = find_char(chars, from, to, '.');
    if dot >= to {
        return false;
    }
    assert(s.subrange(0, dot - from) =~= chars@.subrange(from as int, dot as int));
    assert(s.subrange(dot - from + 1, s.len() as int) =~= chars@.subrange(dot + 1, to as int));
    match octet(chars, from, dot) {
        Some(v) => {
            out.push(v);
            let ghost mid = out@;
            let ok = dotted(chars, dot + 1, to, parts - 1, out);
            proof {
                if ok {
                    let rest = spec_dotted(
                        chars@.subrange(dot + 1, to as int),
                        (parts - 1) as nat,
                    ).unwrap();
                    assert(out@ =~= old(out)@ + (seq![v] + rest));
                }
            }
            ok
        },
        None => false,
    }
}

/// A text of dotted parts denotes as many numbers as it has parts.
pub proof fn lemma_dotted_len(s: Seq<char>, parts: nat)
    requires
        spec_dotted(s, parts).is_some(),
    ensures
        spec_dotted(s, parts).unwrap().len() == parts,
    decreases parts,
{
    if parts > 1 {
        let dot = spec_index_of(s, '.');
        lemma_dotted_len(s.subrange(dot + 1, s.len() as int), (parts - 1) as nat);
    }
}

/// Reads a dotted address.
pub fn parse_ipv4(text: &str) -> (address: Option<[u8; 4]>)
    ensures
        address.is_some() == spec_parse_ipv4(text@).is_some(),
        address matches Some(a) ==> Some(a@) == spec_parse_ipv4(text@),
{
    let chars = chars_of(text);
    let n: usize = chars.len();
    assert(chars@.subrange(0, n as int) =~= text@);
    let mut numbers: Vec<u8> = Vec::new();
    if dotted(&chars, 0, n, 4, &mut numbers) {
        proof {
            lemma_dotted_len(text@, 4);
            assert(numbers@ =~= spec_dotted(text@, 4).unwrap());
        }
        let address: [u8; 4] = [numbers[0], numbers[1], numbers[2], numbers[3]];
        assert(address@ =~= numbers@);
        Some(address)
    } else {
        None
    }
}

// ---------------------------------------------------------------------
// Announcements
// ---------------------------------------------------------------------

/// The headers of an announcement that discovery reads.
#[derive(Debug, Default)]
pub struct SsdpInfo {
    /// Notification type.
    pub nt: String,
    /// Unique service name: the serial of the printer.
    pub usn: String,
    /// Network location: the address of the printer.
    pub location: String,
    /// Model code, from the vendor's own header.
    pub model_code: Option<String>,
    /// Name that the owner gave the printer, from the vendor's own header.
    pub name: Option<String>,
}

/// The headers of an announcement as a mathematical value.
pub struct SsdpInfoView {
    pub nt: Seq<char>,
    pub usn: Seq<char>,
    pub location: Seq<char>,
    pub model_code: Option<Seq<char>>,
    pub name: Option<Seq<char>>,
}

impl View for SsdpInfo {
    type V = SsdpInfoView;

    open spec fn view(&self) -> SsdpInfoView {
        SsdpInfoView {
            nt: self.nt@,
            usn: self.usn@,
            location: self.location@,
            model_code: spec_text(self.model_code),
            name: spec_text(self.name),
        }
    }
}

/// The headers that a packet text carries. A header that occurs twice
/// counts as its last line says; one that does not occur is empty or
/// absent. The vendor's headers are read with or without a colon at the
/// end of the key.
pub open spec fn spec_read_headers(text: Seq<char>) -> SsdpInfoView {
    SsdpInfoView {
        nt: spec_header_or_empty(text, "NT:"@),
        usn: spec_header_or_empty(text, "USN:"@),
        location: spec_header_or_empty(text, "Location:"@),
        model_code: spec_either_header(text, "DevModel.bambu.com:"@, "DevModel.bambu.com"@),
        name: spec_either_header(text, "DevName.bambu.com:"@, "DevName.bambu.com"@),
    }
}

/// Whether headers carry a notification type and a network location.
pub open spec fn spec_is_valid(info: SsdpInfoView) -> bool {
    info.nt.len() > 0 && info.location.len() > 0
}

/// Whether headers announce a printer of the vendor.
pub open spec fn spec_is_bambu_printer(info: SsdpInfoView) -> bool {
    spec_contains(info.nt, BAMBU_NT@)
}

/// The printer that headers announce: none unless they are valid, announce
/// a printer of the vendor and give a dotted address as the location.
pub open spec fn spec_printer_of(info: SsdpInfoView) -> Option<DiscoveredView> {
    if !spec_is_valid(info) || !spec_is_bambu_printer(info) {
        None
    } else {
        match spec_parse_ipv4(info.location) {
            Some(address) => Some(
                DiscoveredView {
                    serial: info.usn,
                    name: info.name,
                    ip_address: address,
                    model: match info.model_code {
                        Some(code) => Some(spec_parse_model(code)),
                        None => None,
                    },
                    model_code: info.model_code,
                },
            ),
            None => None,
        }
    }
}

/// The printer that a packet text announces.
pub open spec fn spec_parse_text(text: Seq<char>) -> Option<DiscoveredView> {
    spec_printer_of(spec_read_headers(text))
}

/// The printer that a packet announces: none where the packet is no text.
pub open spec fn spec_parse_packet(data: Seq<u8>) -> Option<DiscoveredView> {
    if valid_utf8(data) {
        spec_parse_text(decode_utf8(data))
    } else {
        None
    }
}

/// A packet that does not announce the vendor's notification type, or
/// that carries no network location, announces no printer, whatever else
/// it holds.
pub proof fn lemma_foreign_packet_is_dropped(text: Seq<char>)
    requires
        !spec_contains(spec_header_or_empty(text, "NT:"@), BAMBU_NT@) || spec_header_or_empty(
            text,
            "Location:"@,
        ).len() == 0,
    ensures
        spec_parse_text(text).is_none(),
{
}

/// A printer that is announced carries the serial, the name and the model
/// code of its packet, and the model that the code stands for.
pub proof fn lemma_announced_printer(text: Seq<char>)
    requires
        spec_parse_text(text).is_some(),
    ensures
        spec_parse_text(text).unwrap().serial == spec_header_or_empty(text, "USN:"@),
        spec_parse_ipv4(spec_header_or_empty(text, "Location:"@)) == Some(
            spec_parse_text(text).unwrap().ip_address,
        ),
        spec_parse_text(text).unwrap().model_code.is_some() ==> spec_parse_text(
            text,
        ).unwrap().model == Some(
            spec_parse_model(spec_parse_text(text).unwrap().model_code.unwrap()),
        ),
        spec_parse_text(text).unwrap().model_code.is_none() ==> spec_parse_text(
            text,
        ).unwrap().model.is_none(),
{
}

impl SsdpInfo {
    /// Reads the headers of a packet text.
    pub fn read(text: &str) -> (info: SsdpInfo)
        ensures
            info@ == spec_read_headers(text@),
    {
        let chars = chars_of(text);
        SsdpInfo {
            nt: header_or_empty(&chars, "NT:"),
            usn: header_or_empty(&chars, "USN:"),
            location: header_or_empty(&chars, "Location:"),
            model_code: either_header(&chars, "DevModel.bambu.com:", "DevModel.bambu.com"),
            name: either_header(&chars, "DevName.bambu.com:", "DevName.bambu.com"),
        }
    }

    /// Whether the headers carry a notification type and a network location.
    pub fn is_valid(&self) -> (valid: bool)
        ensures
            valid == spec_is_valid(self@),
    {
        !self.nt.as_str().is_empty() && !self.location.as_str().is_empty()
    }

    /// Whether the headers announce a printer of the vendor.
    pub fn is_bambu_printer(&self) -> (ours: bool)
        ensures
            ours == spec_is_bambu_printer(self@),
    {
        let chars = chars_of(self.nt.as_str());
        contains_word(&chars, BAMBU_NT)
    }

    /// The printer that the headers announce.
    pub fn into_printer(self) -> (printer: Option<DiscoveredPrinter>)
        ensures
            printer.is_some() == spec_printer_of(self@).is_some(),
            printer matches Some(p) ==> Some(p@) == spec_printer_of(self@),
    {
        if !self.is_valid() || !self.is_bambu_printer() {
            return None;
        }
        match parse_ipv4(self.location.as_str()) {
            Some(address) => {
                let model: Option<String> = match &self.model_code {
                    Some(code) => Some(parse_model(code.as_str()).to_owned()),
                    None => None,
                };
                Some(
                    DiscoveredPrinter {
                        serial: self.usn,
                        name: self.name,
                        ip_address: address,
                        model,
                        model_code: self.model_code,
                    },
                )
            },
            None => None,
        }
    }
}

/// Reads the text of a packet. Wraps `std::str::from_utf8`, which accepts
/// exactly the byte sequences that are valid UTF-8 and returns them as the
/// text they encode.
#[verifier::external_body]
fn packet_text(data: &[u8]) -> (text: Option<&str>)
    ensures
        text.is_some() == valid_utf8(data@),
        text matches Some(t) ==> t@ == decode_utf8(data@),
{
    std::str::from_utf8(data).ok()
}

/// Reads the announcement in a packet text.
pub fn parse_ssdp_text(text: &str) -> (printer: Option<DiscoveredPrinter>)
    ensures
        printer.is_some() == spec_parse_text(text@).is_some(),
        printer matches Some(p) ==> Some(p@) == spec_parse_text(text@),
{
    SsdpInfo::read(text).into_printer()
}

/// Parse an SSDP packet and extract the printer it announces. A packet that
/// is no text, no announcement of the vendor's printers, or without a
/// usable address gives nothing.
pub fn parse_ssdp_packet(data: &[u8]) -> (printer: Option<DiscoveredPrinter>)
    ensures
        printer.is_some() == spec_parse_packet(data@).is_some(),
        printer matches Some(p) ==> Some(p@) == spec_parse_packet(data@),
{
    match packet_text(data) {
        Some(text) => parse_ssdp_text(text),
        None => None,
    }
}

// ---------------------------------------------------------------------
// The listener
// ---------------------------------------------------------------------

/// Why discovery could not start.
#[derive(Debug, Clone, Copy, PartialEq, Eq, Structural)]
pub enum DiscoveryError {
    /// None of the announcement ports could be bound.
    AddrNotAvailable,
}

/// What a request to start asks of the caller.
#[derive(Debug, Clone, Copy, PartialEq, Eq, Structural)]
pub enum StartDecision {
    /// Discovery runs already: nothing to do.
    AlreadyRunning,
    /// Bind the announcement ports and spawn the listener.
    BindAndListen,
}

/// The discovery service. It keeps nothing but the flag that says whether
/// the listener is to run: what was seen before a stop is not kept.
pub struct SsdpDiscovery {
    running: bool,
}

impl SsdpDiscovery {
    /// Whether the listener is to run.
    pub closed spec fn spec_running(&self) -> bool {
        self.running
    }

    /// A service that does not run.
    pub fn new() -> (service: Self)
        ensures
            !service.spec_running(),
    {
        SsdpDiscovery { running: false }
    }

    /// Check if discovery is running.
    pub fn is_running(&self) -> (running: bool)
        ensures
            running == self.spec_running(),
    {
        self.running
    }

    /// Stop discovery: the listener ends at its next round.
    pub fn stop(&mut self)
        ensures
            !final(self).spec_running(),
    {
        self.running = false;
    }

    /// Start discovery. Where it runs already nothing changes; else the flag
    /// is raised and the caller is to bind the ports and spawn the listener.
    pub fn start(&mut self) -> (decision: StartDecision)
        ensures
            (final(self).spec_running(), decision) == spec_start(old(self).spec_running()),
    {
        if self.running {
            StartDecision::AlreadyRunning
        } else {
            self.running = true;
            StartDecision::BindAndListen
        }
    }

    /// Whether the listener can run on the ports that were bound: it needs
    /// at least one.
    pub fn check_sockets(&self, bound: usize) -> (outcome: Result<(), DiscoveryError>)
        ensures
            outcome.is_ok() == (bound > 0),
            outcome matches Err(e) ==> e == DiscoveryError::AddrNotAvailable,
    {
        if bound == 0 {
            Err(DiscoveryError::AddrNotAvailable)
        } else {
            Ok(())
        }
    }

    /// What the listener publishes for a packet it received: the printer the
    /// packet announces, and nothing once discovery was stopped.
    pub fn handle_packet(&self, data: &[u8]) -> (printer: Option<DiscoveredPrinter>)
        ensures
            !self.spec_running() ==> printer.is_none(),
            self.spec_running() ==> printer.is_some() == spec_parse_packet(data@).is_some(),
            self.spec_running() ==> (printer matches Some(p) ==> Some(p@) == spec_parse_packet(
                data@,
            )),
    {
        if self.running {
            parse_ssdp_packet(data)
        } else {
            None
        }
    }
}

/// Starting twice is starting once: the second request finds discovery
/// running and asks for nothing.
pub proof fn lemma_start_idempotent(running: bool)
    ensures
        spec_start(spec_start(running).0).1 == StartDecision::AlreadyRunning,
        spec_start(spec_start(running).0).0 == spec_start(running).0,
{
}

/// The flag and the decision after a request to start.
pub open spec fn spec_start(running: bool) -> (bool, StartDecision) {
    if running {
        (true, StartDecision::AlreadyRunning)
    } else {
        (true, StartDecision::BindAndListen)
    }
}

} // verus!
