//! Byte layouts: how a run of raw bytes is cut into named fields and shown.
use vstd::prelude::*;
use vstd::string::*;
use vstd::utf8::*;

use crate::text::{digit_char, bytes_debug, signed_decimal, decimal, push_char, push_str, push_signed_decimal, push_bytes_debug};

verus! {

/// How the bytes of one field are read.
#[derive(Clone, Copy, Debug)]
pub enum LayoutVariant {
    String,
    Int32,
    Int64,
    UuidV4,
    Float32,
    Float64,
    Boolean,
    Bytes,
}

/// The name under which a variant is written in configuration files and shown in tables.
pub open spec fn variant_name(v: LayoutVariant) -> Seq<char> {
    match v {
        LayoutVariant::String => "String"@,
        LayoutVariant::Int32 => "Int32"@,
        LayoutVariant::Int64 => "Int64"@,
        LayoutVariant::UuidV4 => "UuidV4"@,
        LayoutVariant::Float32 => "Float32"@,
        LayoutVariant::Float64 => "Float64"@,
        LayoutVariant::Boolean => "Boolean"@,
        LayoutVariant::Bytes => "Bytes"@,
    }
}

/// `s` names one of the variants.
pub open spec fn is_variant_name(s: Seq<char>) -> bool {
    exists|v: LayoutVariant| variant_name(v) == s
}

/// Character-wise equality of two string slices.
pub fn str_eq(a: &str, b: &str) -> (r: bool)
    ensures
        r == (a@ == b@),
{
    let n = a.unicode_len();
    if n != b.unicode_len() {
        return false;
    }
    let mut i: usize = 0;
    while i < n
        invariant
            n == a@.len(),
            n == b@.len(),
            i <= n,
            forall|j: int| 0 <= j < i ==> a@[j] == b@[j],
        decreases n - i,
    {
        if a.get_char(i) != b.get_char(i) {
            return false;
        }
        i = i + 1;
    }
    assert(a@ =~= b@);
    true
}

/// The variant named `s`, if any.
pub fn variant_from_name(s: &str) -> (r: Option<LayoutVariant>)
    ensures
        r matches Some(v) ==> variant_name(v) == s@,
        r is None <==> !is_variant_name(s@),
{
    let r = if str_eq(s, "String") {
        Some(LayoutVariant::String)
    } else if str_eq(s, "Int32") {
        Some(LayoutVariant::Int32)
    } else if str_eq(s, "Int64") {
        Some(LayoutVariant::Int64)
    } else if str_eq(s, "UuidV4") {
        Some(LayoutVariant::UuidV4)
    } else if str_eq(s, "Float32") {
        Some(LayoutVariant::Float32)
    } else if str_eq(s, "Float64") {
        Some(LayoutVariant::Float64)
    } else if str_eq(s, "Boolean") {
        Some(LayoutVariant::Boolean)
    } else if str_eq(s, "Bytes") {
        Some(LayoutVariant::Bytes)
    } else {
        None
    };
    proof {
        if let Some(v) = r {
            assert(variant_name(v) == s@);
        }
        if r is None {
            assert forall|v: LayoutVariant| variant_name(v) != s@ by {
                match v {
                    LayoutVariant::String => {},
                    LayoutVariant::Int32 => {},
                    LayoutVariant::Int64 => {},
                    LayoutVariant::UuidV4 => {},
                    LayoutVariant::Float32 => {},
                    LayoutVariant::Float64 => {},
                    LayoutVariant::Boolean => {},
                    LayoutVariant::Bytes => {},
                }
            }
        }
    }
    r
}

impl LayoutVariant {
    /// The variant with the given name; the name must be one of the eight variant names.
    pub fn from_string(s: &str) -> (r: LayoutVariant)
        requires
            is_variant_name(s@),
        ensures
            variant_name(r) == s@,
    {
        match variant_from_name(s) {
            Some(v) => v,
            None => {
                proof {
                    assert(false);
                }
                LayoutVariant::Bytes
            },
        }
    }

    /// The name of the variant.
    pub fn to_string(&self) -> (r: String)
        ensures
            r@ == variant_name(*self),
    {
        match self {
            LayoutVariant::String => String::from_str("String"),
            LayoutVariant::Int32 => String::from_str("Int32"),
            LayoutVariant::Int64 => String::from_str("Int64"),
            LayoutVariant::UuidV4 => String::from_str("UuidV4"),
            LayoutVariant::Float32 => String::from_str("Float32"),
            LayoutVariant::Float64 => String::from_str("Float64"),
            LayoutVariant::Boolean => String::from_str("Boolean"),
            LayoutVariant::Bytes => String::from_str("Bytes"),
        }
    }
}

impl Default for LayoutVariant {
    fn default() -> (r: LayoutVariant)
        ensures
            r == LayoutVariant::Bytes,
    {
        LayoutVariant::Bytes
    }
}

/// Distinct variants have distinct names.
pub proof fn lemma_variant_names_distinct(a: LayoutVariant, b: LayoutVariant)
    requires
        variant_name(a) == variant_name(b),
    ensures
        a == b,
{
    reveal_strlit("String");
    reveal_strlit("Int32");
    reveal_strlit("Int64");
    reveal_strlit("UuidV4");
    reveal_strlit("Float32");
    reveal_strlit("Float64");
    reveal_strlit("Boolean");
    reveal_strlit("Bytes");
    assert("String"@.len() == 6 && "String"@[0] == 'S');
    assert("Int32"@.len() == 5 && "Int32"@[3] == '3' && "Int32"@[0] == 'I');
    assert("Int64"@.len() == 5 && "Int64"@[3] == '6' && "Int64"@[0] == 'I');
    assert("UuidV4"@.len() == 6 && "UuidV4"@[0] == 'U');
    assert("Float32"@.len() == 7 && "Float32"@[5] == '3' && "Float32"@[0] == 'F');
    assert("Float64"@.len() == 7 && "Float64"@[5] == '6' && "Float64"@[0] == 'F');
    assert("Boolean"@.len() == 7 && "Boolean"@[0] == 'B');
    assert("Bytes"@.len() == 5 && "Bytes"@[0] == 'B');
    let n = variant_name(a);
    assert(n.len() == variant_name(b).len() && n[0] == variant_name(b)[0]);
    if n.len() == 5 && n[0] == 'I' {
        assert(n[3] == variant_name(b)[3]);
    }
    if n.len() == 7 && n[0] == 'F' {
        assert(n[5] == variant_name(b)[5]);
    }
}

/// Reading a variant's name back gives the same variant.
pub proof fn lemma_variant_name_roundtrip(v: LayoutVariant, w: LayoutVariant)
    requires
        variant_name(w) == variant_name(v),
    ensures
        w == v,
{
    lemma_variant_names_distinct(w, v);
}

/// One named field of a byte layout: the bytes `from..to` read as `variant`.
#[derive(Debug)]
pub struct ByteLayout {
    pub variant: LayoutVariant,
    pub name: String,
    pub from: usize,
    pub to: usize,
}

impl Default for ByteLayout {
    /// The layout that shows every byte: named `*`, from the first byte to the last, as bytes.
    fn default() -> (r: ByteLayout)
        ensures
            r.variant == LayoutVariant::Bytes,
            r.name@ == "*"@,
            r.from == usize::MIN,
            r.to == usize::MAX,
    {
        ByteLayout {
            variant: LayoutVariant::Bytes,
            name: String::from_str("*"),
            from: usize::MIN,
            to: usize::MAX,
        }
    }
}

impl ByteLayout {
    /// A copy of this layout.
    pub fn build(&self) -> (r: ByteLayout)
        ensures
            r == *self,
    {
        ByteLayout {
            variant: self.variant,
            name: self.name.clone(),
            from: self.from,
            to: self.to,
        }
    }

    pub fn with_variant(&mut self, variant: LayoutVariant) -> (r: &mut ByteLayout)
        ensures
            *r == (ByteLayout { variant, ..*old(self) }),
            *final(self) == *final(r),
    {
        self.variant = variant;
        self
    }

    pub fn with_name(&mut self, name: String) -> (r: &mut ByteLayout)
        ensures
            *r == (ByteLayout { name, ..*old(self) }),
            *final(self) == *final(r),
    {
        self.name = name;
        self
    }

    pub fn with_range(&mut self, from: usize, to: usize) -> (r: &mut ByteLayout)
        ensures
            *r == (ByteLayout { from, to, ..*old(self) }),
            *final(self) == *final(r),
    {
        self.from = from;
        self.to = to;
        self
    }
}

/// The abstract value of a byte layout.
pub struct LayoutSpec {
    pub variant: LayoutVariant,
    pub name: Seq<char>,
    pub from: usize,
    pub to: usize,
}

impl View for ByteLayout {
    type V = LayoutSpec;

    open spec fn view(&self) -> LayoutSpec {
        LayoutSpec { variant: self.variant, name: self.name@, from: self.from, to: self.to }
    }
}

impl Clone for ByteLayout {
    fn clone(&self) -> (r: ByteLayout)
        ensures
            r == *self,
    {
        self.build()
    }
}

/// A named list of byte layouts.
#[derive(Debug)]
pub struct LayoutTemplate {
    pub name: String,
    pub layout: Vec<ByteLayout>,
}

/// The abstract value of a layout template.
pub struct TemplateSpec {
    pub name: Seq<char>,
    pub layout: Seq<LayoutSpec>,
}

/// The abstract values of a list of layouts.
pub open spec fn layout_views(v: Seq<ByteLayout>) -> Seq<LayoutSpec> {
    v.map_values(|l: ByteLayout| l@)
}

impl View for LayoutTemplate {
    type V = TemplateSpec;

    open spec fn view(&self) -> TemplateSpec {
        TemplateSpec { name: self.name@, layout: layout_views(self.layout@) }
    }
}

/// A copy of a list of layouts.
pub fn clone_layouts(v: &Vec<ByteLayout>) -> (r: Vec<ByteLayout>)
    ensures
        r@ == v@,
{
    let mut r: Vec<ByteLayout> = Vec::new();
    let mut i: usize = 0;
    while i < v.len()
        invariant
            i <= v@.len(),
            r@ == v@.take(i as int),
        decreases v@.len() - i,
    {
        r.push(v[i].build());
        assert(r@ =~= v@.take(i as int + 1));
        i = i + 1;
    }
    assert(v@.take(v@.len() as int) =~= v@);
    r
}

impl Clone for LayoutTemplate {
    fn clone(&self) -> (r: LayoutTemplate)
        ensures
            r.name == self.name,
            r.layout@ == self.layout@,
    {
        LayoutTemplate { name: self.name.clone(), layout: clone_layouts(&self.layout) }
    }
}

/// The abstract values of a list of templates.
pub open spec fn template_views(v: Seq<LayoutTemplate>) -> Seq<TemplateSpec> {
    v.map_values(|t: LayoutTemplate| t@)
}

/// A copy of a list of templates.
pub fn clone_templates(v: &Vec<LayoutTemplate>) -> (r: Vec<LayoutTemplate>)
    ensures
        template_views(r@) == template_views(v@),
{
    let mut r: Vec<LayoutTemplate> = Vec::new();
    let mut i: usize = 0;
    while i < v.len()
        invariant
            i <= v@.len(),
            r@.len() == i,
            template_views(r@) == template_views(v@.take(i as int)),
        decreases v@.len() - i,
    {
        let t = v[i].clone();
        proof {
            assert(t@ == v@[i as int]@);
        }
        let ghost old_r = r@;
        r.push(t);
        assert forall|k: int| 0 <= k < i + 1 implies r@[k]@ == v@[k]@ by {
            if k < i {
                assert(template_views(old_r)[k] == template_views(v@.take(i as int))[k]);
                assert(template_views(old_r)[k] == old_r[k]@);
                assert(template_views(v@.take(i as int))[k] == v@.take(i as int)[k]@);
                assert(r@[k] == old_r[k]);
            } else {
                assert(r@[k] == t);
            }
        }
        assert(template_views(r@) =~= template_views(v@.take(i as int + 1)));
        i = i + 1;
    }
    assert(v@.take(v@.len() as int) =~= v@);
    r
}

impl Default for LayoutTemplate {
    fn default() -> (r: LayoutTemplate)
        ensures
            r.name@ == Seq::<char>::empty(),
            r.layout@ == Seq::<ByteLayout>::empty(),
    {
        LayoutTemplate { name: String::new(), layout: Vec::new() }
    }
}

impl LayoutTemplate {
    pub fn new(name: &str, layout: Vec<ByteLayout>) -> (r: LayoutTemplate)
        ensures
            r.name@ == name@,
            r.layout == layout,
    {
        LayoutTemplate { name: String::from_str(name), layout }
    }

    pub fn set_name(&mut self, name: &str)
        ensures
            final(self).name@ == name@,
            final(self).layout == old(self).layout,
    {
        self.name = String::from_str(name);
    }

    pub fn push_layout(&mut self, layout: ByteLayout)
        ensures
            final(self).name == old(self).name,
            final(self).layout@ == old(self).layout@.push(layout),
    {
        self.layout.push(layout);
    }
}

/// Unsigned big-endian value of a byte sequence.
pub open spec fn be_value(s: Seq<u8>) -> nat
    decreases s.len(),
{
    if s.len() == 0 {
        0
    } else {
        be_value(s.drop_last()) * 256 + s.last() as nat
    }
}

/// `256` to the power `k`.
pub open spec fn pow256(k: nat) -> nat
    decreases k,
{
    if k == 0 {
        1
    } else {
        256 * pow256((k - 1) as nat)
    }
}

proof fn lemma_be_value_bound(s: Seq<u8>)
    ensures
        be_value(s) < pow256(s.len()),
    decreases s.len(),
{
    if s.len() > 0 {
        lemma_be_value_bound(s.drop_last());
    }
}

/// The first eight bytes read as a big-endian two's-complement integer.
pub open spec fn be_i64(s: Seq<u8>) -> int {
    let u = be_value(s.take(8));
    if u < 0x8000_0000_0000_0000 {
        u as int
    } else {
        u - 0x1_0000_0000_0000_0000
    }
}

/// The first four bytes read as a big-endian two's-complement integer.
pub open spec fn be_i32(s: Seq<u8>) -> int {
    let u = be_value(s.take(4));
    if u < 0x8000_0000 {
        u as int
    } else {
        u - 0x1_0000_0000
    }
}

/// Unsigned big-endian value of the first `n` bytes (`n <= 8`).
pub fn be_prefix_value(bytes: &[u8], n: usize) -> (r: u64)
    requires
        n <= 8,
        n <= bytes@.len(),
    ensures
        r as nat == be_value(bytes@.take(n as int)),
{
    let mut acc: u64 = 0;
    let mut i: usize = 0;
    proof {
        reveal_with_fuel(pow256, 9);
    }
    while i < n
        invariant
            i <= n,
            n <= 8,
            n <= bytes@.len(),
            acc as nat == be_value(bytes@.take(i as int)),
            pow256(8) == 0x1_0000_0000_0000_0000,
        decreases n - i,
    {
        proof {
            lemma_be_value_bound(bytes@.take(i as int));
            lemma_pow256_monotone(i as nat, 7);
            assert(bytes@.take(i as int + 1).drop_last() =~= bytes@.take(i as int));
        }
        acc = acc * 256 + bytes[i] as u64;
        i = i + 1;
    }
    acc
}

proof fn lemma_pow256_monotone(i: nat, j: nat)
    requires
        i <= j,
    ensures
        pow256(i) <= pow256(j),
    decreases j,
{
    if i < j {
        lemma_pow256_monotone(i, (j - 1) as nat);
    }
}

/// Lower-case hexadecimal digit of `n < 16`.
pub open spec fn hex_char(n: nat) -> char {
    if n < 10 {
        digit_char(n)
    } else if n == 10 {
        'a'
    } else if n == 11 {
        'b'
    } else if n == 12 {
        'c'
    } else if n == 13 {
        'd'
    } else if n == 14 {
        'e'
    } else {
        'f'
    }
}

/// Each byte as two lower-case hexadecimal digits, high nibble first.
pub open spec fn hex_run(s: Seq<u8>) -> Seq<char>
    decreases s.len(),
{
    if s.len() == 0 {
        Seq::empty()
    } else {
        hex_run(s.drop_last()) + seq![hex_char(s.last() as nat / 16), hex_char(s.last() as nat % 16)]
    }
}

/// The hyphenated lower-case text of a UUID: hex groups of 4, 2, 2, 2 and 6 bytes.
pub open spec fn uuid_text(b: Seq<u8>) -> Seq<char> {
    hex_run(b.subrange(0, 4)) + seq!['-'] + hex_run(b.subrange(4, 6)) + seq!['-'] + hex_run(
        b.subrange(6, 8),
    ) + seq!['-'] + hex_run(b.subrange(8, 10)) + seq!['-'] + hex_run(b.subrange(10, 16))
}

/// `uuid::Uuid::from_bytes(bytes).to_string()`: uuid's `Display` writes the hyphenated
/// lower-case form, each byte as two hex digits in order, with `-` after the 4th, 6th,
/// 8th and 10th byte.
#[verifier::external_body]
fn uuid_hyphenated(bytes: [u8; 16]) -> (r: String)
    ensures
        r@ == uuid_text(bytes@),
{
    uuid::Uuid::from_bytes(bytes).to_string()
}

/// `String::from_utf8(bytes.to_vec())`: succeeds exactly on valid UTF-8, and then holds the
/// decoded characters.
#[verifier::external_body]
pub(crate) fn utf8_string(bytes: &[u8]) -> (r: Option<String>)
    ensures
        r is Some <==> valid_utf8(bytes@),
        r matches Some(s) ==> s@ == decode_utf8(bytes@),
{
    String::from_utf8(bytes.to_vec()).ok()
}

/// `"True"` for a nonzero byte, `"False"` for zero.
pub open spec fn bool_word(b: u8) -> Seq<char> {
    if b != 0 {
        "True"@
    } else {
        "False"@
    }
}

/// The words of the bytes, each in double quotes, separated by `", "`.
pub open spec fn quoted_words(s: Seq<u8>) -> Seq<char>
    decreases s.len(),
{
    if s.len() == 0 {
        Seq::empty()
    } else if s.len() == 1 {
        seq!['"'] + bool_word(s[0]) + seq!['"']
    } else {
        quoted_words(s.drop_last()) + seq![',', ' ', '"'] + bool_word(s.last()) + seq!['"']
    }
}

/// What the terminal shows for bytes it cannot read as the chosen variant.
pub open spec fn unable_text(s: Seq<u8>) -> Seq<char> {
    "Unable to parse: "@ + bytes_debug(s)
}

/// The value of a field, as the abstract model sees it.
pub enum Decoded {
    Text(Seq<char>),
    Float32Bits(u32),
    Float64Bits(u64),
}

/// The value of a field. Floating-point fields are handed on as their IEEE-754 bits, which
/// the front end formats.
#[derive(Clone, Debug)]
pub enum DecodedValue {
    Text(String),
    Float32Bits(u32),
    Float64Bits(u64),
}

impl View for DecodedValue {
    type V = Decoded;

    open spec fn view(&self) -> Decoded {
        match self {
            DecodedValue::Text(s) => Decoded::Text(s@),
            DecodedValue::Float32Bits(b) => Decoded::Float32Bits(*b),
            DecodedValue::Float64Bits(b) => Decoded::Float64Bits(*b),
        }
    }
}

/// What the bytes `s` read as `variant` show.
pub open spec fn decode_layout(s: Seq<u8>, variant: LayoutVariant) -> Decoded {
    match variant {
        LayoutVariant::String => if valid_utf8(s) {
            Decoded::Text(decode_utf8(s))
        } else {
            Decoded::Text(unable_text(s))
        },
        LayoutVariant::Int64 => if s.len() < 8 {
            Decoded::Text(unable_text(s))
        } else {
            Decoded::Text(signed_decimal(be_i64(s)))
        },
        LayoutVariant::Int32 => if s.len() < 4 {
            Decoded::Text(unable_text(s))
        } else {
            Decoded::Text(signed_decimal(be_i32(s)))
        },
        LayoutVariant::Float64 => if s.len() < 8 {
            Decoded::Text(unable_text(s))
        } else {
            Decoded::Float64Bits(be_value(s.take(8)) as u64)
        },
        LayoutVariant::Float32 => if s.len() < 4 {
            Decoded::Text(unable_text(s))
        } else {
            Decoded::Float32Bits(be_value(s.take(4)) as u32)
        },
        LayoutVariant::Boolean => if exists|i: int| 0 <= i < s.len() && s[i] > 1 {
            Decoded::Text(unable_text(s))
        } else if s.len() == 1 {
            Decoded::Text(bool_word(s[0]))
        } else {
            Decoded::Text(seq!['['] + quoted_words(s) + seq![']'])
        },
        LayoutVariant::UuidV4 => Decoded::Text(uuid_text(s.take(16))),
        LayoutVariant::Bytes => Decoded::Text(bytes_debug(s)),
    }
}

fn unable(bytes: &[u8]) -> (r: DecodedValue)
    ensures
        r@ == Decoded::Text(unable_text(bytes@)),
{
    let mut s = String::from_str("Unable to parse: ");
    push_bytes_debug(&mut s, bytes);
    r_text(s)
}

fn r_text(s: String) -> (r: DecodedValue)
    ensures
        r@ == Decoded::Text(s@),
{
    DecodedValue::Text(s)
}

fn bool_string(b: u8) -> (r: String)
    ensures
        r@ == bool_word(b),
{
    if b != 0 {
        String::from_str("True")
    } else {
        String::from_str("False")
    }
}

fn decode_booleans(bytes: &[u8]) -> (r: DecodedValue)
    ensures
        r@ == decode_layout(bytes@, LayoutVariant::Boolean),
{
    let mut i: usize = 0;
    while i < bytes.len()
        invariant
            i <= bytes@.len(),
            forall|j: int| 0 <= j < i ==> bytes@[j] <= 1,
        decreases bytes@.len() - i,
    {
        if bytes[i] > 1 {
            return unable(bytes);
        }
        i = i + 1;
    }
    if bytes.len() == 1 {
        return r_text(bool_string(bytes[0]));
    }
    let mut s = String::from_str("[");
    proof {
        reveal_strlit("[");
    }
    let ghost start = s@;
    let mut k: usize = 0;
    while k < bytes.len()
        invariant
            k <= bytes@.len(),
            start == seq!['['],
            s@ == start + quoted_words(bytes@.take(k as int)),
        decreases bytes@.len() - k,
    {
        if k > 0 {
            push_str(&mut s, ", ");
        }
        push_char(&mut s, '"');
        let w = bool_string(bytes[k]);
        push_str(&mut s, w.as_str());
        push_char(&mut s, '"');
        proof {
            reveal_strlit(", ");
            let t = bytes@.take(k as int + 1);
            assert(t.drop_last() =~= bytes@.take(k as int));
            assert(t.last() == bytes@[k as int]);
            assert(s@ =~= start + quoted_words(t));
        }
        k = k + 1;
    }
    push_char(&mut s, ']');
    assert(bytes@.take(bytes@.len() as int) =~= bytes@);
    assert(s@ =~= seq!['['] + quoted_words(bytes@) + seq![']']);
    r_text(s)
}

/// Reads `bytes` as `variant`. A UUID needs at least sixteen bytes.
pub fn decode_bytes(bytes: &[u8], variant: LayoutVariant) -> (r: DecodedValue)
    requires
        variant is UuidV4 ==> bytes@.len() >= 16,
    ensures
        r@ == decode_layout(bytes@, variant),
{
    match variant {
        LayoutVariant::String => match utf8_string(bytes) {
            Some(s) => r_text(s),
            None => unable(bytes),
        },
        LayoutVariant::Int64 => {
            if bytes.len() < 8 {
                return unable(bytes);
            }
            let u = be_prefix_value(bytes, 8);
            let v: i128 = if u < 0x8000_0000_0000_0000 {
                u as i128
            } else {
                u as i128 - 0x1_0000_0000_0000_0000i128
            };
            let mut s = String::new();
            push_signed_decimal(&mut s, v as i64);
            assert(s@ =~= signed_decimal(be_i64(bytes@)));
            r_text(s)
        },
        LayoutVariant::Int32 => {
            if bytes.len() < 4 {
                return unable(bytes);
            }
            let u = be_prefix_value(bytes, 4);
            proof {
                lemma_be_value_bound(bytes@.take(4));
                reveal_with_fuel(pow256, 5);
            }
            let v: i64 = if u < 0x8000_0000 {
                u as i64
            } else {
                u as i64 - 0x1_0000_0000i64
            };
            let mut s = String::new();
            push_signed_decimal(&mut s, v);
            assert(s@ =~= signed_decimal(be_i32(bytes@)));
            r_text(s)
        },
        LayoutVariant::Float64 => {
            if bytes.len() < 8 {
                return unable(bytes);
            }
            DecodedValue::Float64Bits(be_prefix_value(bytes, 8))
        },
        LayoutVariant::Float32 => {
            if bytes.len() < 4 {
                return unable(bytes);
            }
            let u = be_prefix_value(bytes, 4);
            proof {
                lemma_be_value_bound(bytes@.take(4));
                reveal_with_fuel(pow256, 5);
            }
            DecodedValue::Float32Bits(u as u32)
        },
        LayoutVariant::Boolean => decode_booleans(bytes),
        LayoutVariant::UuidV4 => {
            let mut a: [u8; 16] = [0u8; 16];
            let mut i: usize = 0;
            while i < 16
                invariant
                    i <= 16,
                    bytes@.len() >= 16,
                    a@.len() == 16,
                    forall|j: int| 0 <= j < i ==> a@[j] == bytes@[j],
                decreases 16 - i,
            {
                a[i] = bytes[i];
                i = i + 1;
            }
            assert(a@ =~= bytes@.take(16));
            r_text(uuid_hyphenated(a))
        },
        LayoutVariant::Bytes => r_text(crate::text::bytes_debug_string(bytes)),
    }
}

/// Reading a run of bytes as one of the layout variants.
pub trait FromLayoutVariant {
    spec fn layout_bytes(&self) -> Seq<u8>;

    fn from_variant(&self, variant: LayoutVariant) -> (r: DecodedValue)
        requires
            variant is UuidV4 ==> self.layout_bytes().len() >= 16,
        ensures
            r@ == decode_layout(self.layout_bytes(), variant),
    ;
}

impl FromLayoutVariant for Vec<u8> {
    open spec fn layout_bytes(&self) -> Seq<u8> {
        self@
    }

    fn from_variant(&self, variant: LayoutVariant) -> (r: DecodedValue) {
        decode_bytes(self.as_slice(), variant)
    }
}

} // verus!
