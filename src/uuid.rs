use vstd::prelude::*;
use vstd::utf8::encode_utf8;

verus! {

/// Relies on `String::push`: the character is appended at the end.
pub assume_specification[ String::push ](s: &mut String, ch: char)
    ensures
        final(s)@ == old(s)@.push(ch),
;

/// The characters of `s` with every hyphen removed.
pub open spec fn without_hyphens(s: Seq<char>) -> Seq<char>
    decreases s.len(),
{
    if s.len() == 0 {
        s
    } else if s.last() == '-' {
        without_hyphens(s.drop_last())
    } else {
        without_hyphens(s.drop_last()).push(s.last())
    }
}

pub open spec fn is_hex_digit(c: char) -> bool {
    ('0' <= c && c <= '9') || ('a' <= c && c <= 'f') || ('A' <= c && c <= 'F')
}

pub open spec fn is_ascii_char(c: char) -> bool {
    (c as u32) < 128
}

/// A UUID, with or without its hyphens: 32 hexadecimal digits once the
/// hyphens are removed.
pub open spec fn is_uuid(s: Seq<char>) -> bool {
    let t = without_hyphens(s);
    t.len() == 32 && forall|i: int| 0 <= i < t.len() ==> #[trigger] is_hex_digit(t[i])
}

/// 32 ASCII characters grouped 8-4-4-4-12 with hyphens; anything that is not
/// 32 ASCII characters without hyphens is returned as it is.
pub open spec fn with_hyphens(s: Seq<char>) -> Seq<char> {
    if s.len() == 32 && (forall|i: int| 0 <= i < 32 ==> #[trigger] s[i] != '-' && is_ascii_char(s[i])) {
        s.subrange(0, 8) + seq!['-'] + s.subrange(8, 12) + seq!['-'] + s.subrange(12, 16) + seq!['-']
            + s.subrange(16, 20) + seq!['-'] + s.subrange(20, 32)
    } else {
        s
    }
}

/// The first `n` bytes of the hyphen-free text, padded with zeros.
pub open spec fn seed_prefix(s: Seq<char>, n: nat) -> Seq<u8> {
    let b = encode_utf8(without_hyphens(s));
    Seq::new(n, |i: int| if i < b.len() { b[i] } else { 0u8 })
}

/// Removes every hyphen.
pub fn strip_hyphens(s: &str) -> (r: String)
    ensures
        r@ == without_hyphens(s@),
{
    let mut out = String::new();
    let ghost mut seen: int = 0;
    for c in it: s.chars()
        invariant
            it.seq() == s@,
            seen == it.index(),
            out@ == without_hyphens(s@.take(seen)),
    {
        assert(s@.take(seen + 1).drop_last() =~= s@.take(seen));
        if c != '-' {
            out.push(c);
        }
        proof {
            seen = seen + 1;
        }
    }
    assert(s@.take(seen) =~= s@);
    out
}

/// The characters of `s`, one per element.
fn chars_of(s: &str) -> (r: Vec<char>)
    ensures
        r@ == s@,
{
    let mut out: Vec<char> = Vec::new();
    let ghost mut seen: int = 0;
    for c in it: s.chars()
        invariant
            it.seq() == s@,
            seen == it.index(),
            out@ == s@.take(seen),
    {
        out.push(c);
        proof {
            seen = seen + 1;
        }
        assert(out@ =~= s@.take(seen));
    }
    assert(s@.take(seen) =~= s@);
    out
}

fn hex_digit(c: char) -> (r: bool)
    ensures
        r == is_hex_digit(c),
{
    ('0' <= c && c <= '9') || ('a' <= c && c <= 'f') || ('A' <= c && c <= 'F')
}

/// Appends `v[from..to]` to `out`.
fn push_range(out: &mut String, v: &Vec<char>, from: usize, to: usize)
    requires
        from <= to <= v@.len(),
    ensures
        final(out)@ == old(out)@ + v@.subrange(from as int, to as int),
{
    let ghost start = out@;
    let mut i = from;
    while i < to
        invariant
            from <= i <= to <= v@.len(),
            out@ == start + v@.subrange(from as int, i as int),
        decreases to - i,
    {
        out.push(v[i]);
        i = i + 1;
        assert(out@ =~= start + v@.subrange(from as int, i as int));
    }
}

/// Restores the 8-4-4-4-12 grouping of a UUID whose hyphens were removed.
pub fn add_hyphens(s: &str) -> (r: String)
    ensures
        r@ == with_hyphens(s@),
{
    let v = chars_of(s);
    let mut plain = v.len() == 32;
    let mut i: usize = 0;
    while plain && i < v.len()
        invariant
            v@ == s@,
            i <= v@.len(),
            plain ==> v@.len() == 32,
            plain ==> forall|j: int| 0 <= j < i ==> #[trigger] v@[j] != '-' && is_ascii_char(v@[j]),
            !plain ==> !(v@.len() == 32 && (forall|j: int| 0 <= j < 32 ==> #[trigger] v@[j] != '-' && is_ascii_char(v@[j]))),
        decreases v@.len() - i,
    {
        if v[i] == '-' || (v[i] as u32) >= 128 {
            plain = false;
        }
        i = i + 1;
    }
    let mut out = String::new();
    if !plain {
        push_range(&mut out, &v, 0, v.len());
        assert(v@.subrange(0, v@.len() as int) =~= v@);
        assert(out@ =~= s@);
        return out;
    }
    push_range(&mut out, &v, 0, 8);
    out.push('-');
    push_range(&mut out, &v, 8, 12);
    out.push('-');
    push_range(&mut out, &v, 12, 16);
    out.push('-');
    push_range(&mut out, &v, 16, 20);
    out.push('-');
    push_range(&mut out, &v, 20, 32);
    assert(out@ =~= with_hyphens(s@));
    out
}

/// Whether `s` is a UUID, with or without hyphens.
pub fn check_uuid(s: &str) -> (r: bool)
    ensures
        r == is_uuid(s@),
{
    let t = strip_hyphens(s);
    let v = chars_of(t.as_str());
    if v.len() != 32 {
        return false;
    }
    let mut i: usize = 0;
    while i < v.len()
        invariant
            v@ == without_hyphens(s@),
            i <= v@.len(),
            forall|j: int| 0 <= j < i ==> #[trigger] is_hex_digit(v@[j]),
        decreases v@.len() - i,
    {
        if !hex_digit(v[i]) {
            return false;
        }
        i = i + 1;
    }
    true
}

/// The first `N` bytes of the hyphen-free text, padded with zeros.
pub fn fixed_seed<const N: usize>(s: &str) -> (r: [u8; N])
    ensures
        r@ == seed_prefix(s@, N as nat),
{
    let formatted = strip_hyphens(s);
    let bytes = formatted.as_str().as_bytes();
    let ghost b = encode_utf8(without_hyphens(s@));
    assert(bytes@ == b);
    let len = if N < bytes.len() { N } else { bytes.len() };
    let mut result: [u8; N] = [0u8; N];
    let mut i: usize = 0;
    while i < len
        invariant
            len <= N,
            len <= bytes@.len(),
            bytes@ == b,
            i <= len,
            result@.len() == N,
            forall|j: int| 0 <= j < i ==> #[trigger] result@[j] == b[j],
            forall|j: int| i <= j < N ==> #[trigger] result@[j] == 0u8,
        decreases len - i,
    {
        result.set(i, bytes[i]);
        i = i + 1;
    }
    assert(result@ =~= seed_prefix(s@, N as nat));
    result
}

/// Conversions between UUID strings and the compact forms used in
/// derivation seeds.
pub trait UuidFormatting {
    /// The text being formatted.
    spec fn uuid_text(&self) -> Seq<char>;

    /// Removes hyphens, to fit the 32-byte seed limit.
    fn to_solana_seed_format(&self) -> (r: String)
        ensures
            r@ == without_hyphens(self.uuid_text()),
    ;

    /// Restores the hyphens of a UUID that had them removed.
    fn from_solana_seed_format(&self) -> (r: String)
        ensures
            r@ == with_hyphens(self.uuid_text()),
    ;

    /// Whether the text is a UUID, with or without hyphens.
    fn is_valid_uuid(&self) -> (r: bool)
        ensures
            r == is_uuid(self.uuid_text()),
    ;

    /// The first 8 bytes of the hyphen-free text, zero-padded.
    fn to_short_seed_bytes(&self) -> (r: [u8; 8])
        ensures
            r@ == seed_prefix(self.uuid_text(), 8),
    ;

    /// The first 7 bytes of the hyphen-free text, zero-padded.
    fn to_7_byte_seed(&self) -> (r: [u8; 7])
        ensures
            r@ == seed_prefix(self.uuid_text(), 7),
    ;

    /// The first `N` bytes of the hyphen-free text, zero-padded.
    fn to_fixed_seed<const N: usize>(&self) -> (r: [u8; N])
        ensures
            r@ == seed_prefix(self.uuid_text(), N as nat),
    ;
}

impl UuidFormatting for str {
    open spec fn uuid_text(&self) -> Seq<char> {
        self@
    }

    fn to_solana_seed_format(&self) -> (r: String) {
        strip_hyphens(self)
    }

    fn from_solana_seed_format(&self) -> (r: String) {
        add_hyphens(self)
    }

    fn is_valid_uuid(&self) -> (r: bool) {
        check_uuid(self)
    }

    fn to_short_seed_bytes(&self) -> (r: [u8; 8]) {
        fixed_seed::<8>(self)
    }

    fn to_7_byte_seed(&self) -> (r: [u8; 7]) {
        fixed_seed::<7>(self)
    }

    fn to_fixed_seed<const N: usize>(&self) -> (r: [u8; N]) {
        fixed_seed::<N>(self)
    }
}

impl UuidFormatting for String {
    open spec fn uuid_text(&self) -> Seq<char> {
        self@
    }

    fn to_solana_seed_format(&self) -> (r: String) {
        strip_hyphens(self.as_str())
    }

    fn from_solana_seed_format(&self) -> (r: String) {
        add_hyphens(self.as_str())
    }

    fn is_valid_uuid(&self) -> (r: bool) {
        check_uuid(self.as_str())
    }

    fn to_short_seed_bytes(&self) -> (r: [u8; 8]) {
        fixed_seed::<8>(self.as_str())
    }

    fn to_7_byte_seed(&self) -> (r: [u8; 7]) {
        fixed_seed::<7>(self.as_str())
    }

    fn to_fixed_seed<const N: usize>(&self) -> (r: [u8; N]) {
        fixed_seed::<N>(self.as_str())
    }
}

} // verus!
