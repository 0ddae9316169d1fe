//! Computes the conservative bitwise-AND intersection of Firecracker CPU configs.
//!
//! A capability, CPUID register, or MSR survives only when every config contains it.
//! Callers own cluster completeness gating and the reading of a config's JSON.
//! Output preserves stable field order and zero-padded bitmap formatting.

use crate::node_registry::cpu_template_json::{config_json, render_config};
use crate::text::{chars_of, comes_before, decimal, decimal_text, quoted, quoted_text, text_before};
use crate::text::{text_order_is_total, text_order_is_transitive};
use vstd::arithmetic::power2::{lemma2_to64, lemma_pow2_unfold, pow2};
use vstd::prelude::*;
use vstd::string::*;

verus! {

/// Firecracker CPU-config shape in output field order.
#[derive(Debug)]
pub struct CpuConfig {
    pub kvm_capabilities: Vec<String>,
    pub cpuid_modifiers: Vec<CpuidModifier>,
    pub msr_modifiers: Vec<MsrModifier>,
}

/// One CPUID leaf of a config and the registers it sets.
#[derive(Debug)]
pub struct CpuidModifier {
    pub leaf: String,
    pub subleaf: String,
    pub flags: i64,
    pub modifiers: Vec<RegisterMod>,
}

/// One register of a CPUID leaf.
#[derive(Debug)]
pub struct RegisterMod {
    pub register: String,
    pub bitmap: String,
}

/// One model-specific register of a config.
#[derive(Debug)]
pub struct MsrModifier {
    pub addr: String,
    pub bitmap: String,
}

/// What identifies a CPUID leaf across configs, however its numbers are spelled.
#[derive(Debug, Clone, Copy, PartialEq, Eq, Structural)]
pub struct CpuidLeafKey {
    pub leaf: u32,
    pub subleaf: u32,
    pub flags: i64,
}

/// Why configs cannot be intersected. Positions count from zero.
#[derive(Debug, Clone, Copy, PartialEq, Eq, Structural)]
pub enum CpuTemplateError {
    /// The text of a config is not a CPU config.
    ParseConfig { config: usize },
    /// The leaf of a CPUID modifier is not a hexadecimal `u32`.
    CpuidLeaf { config: usize, modifier: usize },
    /// The subleaf of a CPUID modifier is not a hexadecimal `u32`.
    CpuidSubleaf { config: usize, modifier: usize },
    /// The bitmap of a register is not a binary `u32`.
    CpuidBitmap { config: usize, modifier: usize, register: usize },
    /// The address of an MSR modifier is not a hexadecimal `u32`.
    MsrAddr { config: usize, modifier: usize },
    /// The bitmap of an MSR modifier is not a binary `u64`.
    MsrBitmap { config: usize, modifier: usize },
}

/// Mathematical reading of a [`RegisterMod`].
pub struct RegisterModel {
    pub register: Seq<char>,
    pub bitmap: Seq<char>,
}

/// Mathematical reading of a [`CpuidModifier`].
pub struct CpuidModel {
    pub leaf: Seq<char>,
    pub subleaf: Seq<char>,
    pub flags: i64,
    pub modifiers: Seq<RegisterModel>,
}

/// Mathematical reading of an [`MsrModifier`].
pub struct MsrModel {
    pub addr: Seq<char>,
    pub bitmap: Seq<char>,
}

/// Mathematical reading of a [`CpuConfig`].
pub struct ConfigModel {
    pub kvm_capabilities: Seq<Seq<char>>,
    pub cpuid_modifiers: Seq<CpuidModel>,
    pub msr_modifiers: Seq<MsrModel>,
}

impl View for RegisterMod {
    type V = RegisterModel;

    open spec fn view(&self) -> RegisterModel {
        RegisterModel { register: self.register@, bitmap: self.bitmap@ }
    }
}

impl View for CpuidModifier {
    type V = CpuidModel;

    open spec fn view(&self) -> CpuidModel {
        CpuidModel {
            leaf: self.leaf@,
            subleaf: self.subleaf@,
            flags: self.flags,
            modifiers: Seq::new(self.modifiers@.len(), |i: int| self.modifiers@[i]@),
        }
    }
}

impl View for MsrModifier {
    type V = MsrModel;

    open spec fn view(&self) -> MsrModel {
        MsrModel { addr: self.addr@, bitmap: self.bitmap@ }
    }
}

impl View for CpuConfig {
    type V = ConfigModel;

    open spec fn view(&self) -> ConfigModel {
        ConfigModel {
            kvm_capabilities: texts(self.kvm_capabilities@),
            cpuid_modifiers: Seq::new(
                self.cpuid_modifiers@.len(),
                |i: int| self.cpuid_modifiers@[i]@,
            ),
            msr_modifiers: Seq::new(self.msr_modifiers@.len(), |i: int| self.msr_modifiers@[i]@),
        }
    }
}

impl Clone for RegisterMod {
    fn clone(&self) -> (r: RegisterMod)
        ensures
            r@ == self@,
    {
        RegisterMod { register: self.register.clone(), bitmap: self.bitmap.clone() }
    }
}

impl Clone for MsrModifier {
    fn clone(&self) -> (r: MsrModifier)
        ensures
            r@ == self@,
    {
        MsrModifier { addr: self.addr.clone(), bitmap: self.bitmap.clone() }
    }
}

impl Clone for CpuidModifier {
    fn clone(&self) -> (r: CpuidModifier)
        ensures
            r@ == self@,
    {
        let mut modifiers: Vec<RegisterMod> = Vec::new();
        let mut i: usize = 0;
        while i < self.modifiers.len()
            invariant
                i <= self.modifiers@.len(),
                modifiers@.len() == i,
                forall|k: int| 0 <= k < i ==> (#[trigger] modifiers@[k])@ == self.modifiers@[k]@,
            decreases self.modifiers@.len() - i,
        {
            modifiers.push(self.modifiers[i].clone());
            i = i + 1;
        }
        let r = CpuidModifier {
            leaf: self.leaf.clone(),
            subleaf: self.subleaf.clone(),
            flags: self.flags,
            modifiers,
        };
        proof {
            assert(r@.modifiers =~= self@.modifiers);
        }
        r
    }
}

impl Clone for CpuConfig {
    fn clone(&self) -> (r: CpuConfig)
        ensures
            r@ == self@,
    {
        let mut kvm_capabilities: Vec<String> = Vec::new();
        let mut i: usize = 0;
        while i < self.kvm_capabilities.len()
            invariant
                i <= self.kvm_capabilities@.len(),
                kvm_capabilities@ =~= self.kvm_capabilities@.take(i as int),
            decreases self.kvm_capabilities@.len() - i,
        {
            kvm_capabilities.push(self.kvm_capabilities[i].clone());
            i = i + 1;
        }
        let mut cpuid_modifiers: Vec<CpuidModifier> = Vec::new();
        let mut j: usize = 0;
        while j < self.cpuid_modifiers.len()
            invariant
                j <= self.cpuid_modifiers@.len(),
                cpuid_modifiers@.len() == j,
                forall|k: int|
                    0 <= k < j ==> (#[trigger] cpuid_modifiers@[k])@ == self.cpuid_modifiers@[k]@,
            decreases self.cpuid_modifiers@.len() - j,
        {
            cpuid_modifiers.push(self.cpuid_modifiers[j].clone());
            j = j + 1;
        }
        let mut msr_modifiers: Vec<MsrModifier> = Vec::new();
        let mut n: usize = 0;
        while n < self.msr_modifiers.len()
            invariant
                n <= self.msr_modifiers@.len(),
                msr_modifiers@.len() == n,
                forall|k: int| 0 <= k < n ==> (#[trigger] msr_modifiers@[k])@ == self.msr_modifiers@[k]@,
            decreases self.msr_modifiers@.len() - n,
        {
            msr_modifiers.push(self.msr_modifiers[n].clone());
            n = n + 1;
        }
        let r = CpuConfig { kvm_capabilities, cpuid_modifiers, msr_modifiers };
        proof {
            assert(self.kvm_capabilities@.take(i as int) =~= self.kvm_capabilities@);
            assert(r@.cpuid_modifiers =~= self@.cpuid_modifiers);
            assert(r@.msr_modifiers =~= self@.msr_modifiers);
        }
        r
    }
}

/// The characters of each string.
pub open spec fn texts(s: Seq<String>) -> Seq<Seq<char>> {
    Seq::new(s.len(), |i: int| s[i]@)
}

/// The models of a list of configs.
pub open spec fn config_models(s: Seq<CpuConfig>) -> Seq<ConfigModel> {
    Seq::new(s.len(), |i: int| s[i]@)
}

// ---- numbers in text -------------------------------------------------------

/// The value of `c` as a digit of base 2 or 16; hexadecimal letters of either case count.
pub open spec fn radix_digit(c: char, radix: nat) -> Option<nat> {
    let d: int = if '0' <= c && c <= '9' {
        c as int - '0' as int
    } else if 'a' <= c && c <= 'f' {
        c as int - 'a' as int + 10
    } else if 'A' <= c && c <= 'F' {
        c as int - 'A' as int + 10
    } else {
        radix as int
    };
    if 0 <= d < radix {
        Some(d as nat)
    } else {
        None
    }
}

/// The number that the digits of `s` spell, most significant first.
pub open spec fn digits_value(s: Seq<char>, radix: nat) -> Option<nat>
    decreases s.len(),
{
    if s.len() == 0 {
        Some(0)
    } else {
        match (digits_value(s.drop_last(), radix), radix_digit(s.last(), radix)) {
            (Some(v), Some(d)) => Some(v * radix + d),
            _ => None,
        }
    }
}

/// The unsigned number that `s` spells: an optional plus sign and at least one digit, no more
/// than `max`.
pub open spec fn parsed_number(s: Seq<char>, radix: nat, max: nat) -> Option<nat> {
    let body = if s.len() > 0 && s[0] == '+' {
        s.skip(1)
    } else {
        s
    };
    match digits_value(body, radix) {
        Some(v) => if body.len() > 0 && v <= max {
            Some(v)
        } else {
            None
        },
        None => None,
    }
}

/// `s` without a leading `0x`, in either case.
pub open spec fn without_hex_prefix(s: Seq<char>) -> Seq<char> {
    if s.len() >= 2 && s[0] == '0' && (s[1] == 'x' || s[1] == 'X') {
        s.skip(2)
    } else {
        s
    }
}

/// `s` without a leading lower-case `0b`.
pub open spec fn without_binary_prefix(s: Seq<char>) -> Seq<char> {
    if s.len() >= 2 && s[0] == '0' && s[1] == 'b' {
        s.skip(2)
    } else {
        s
    }
}

/// The `u32` that a hexadecimal text spells.
pub open spec fn hex_u32(s: Seq<char>) -> Option<u32> {
    match parsed_number(without_hex_prefix(s), 16, u32::MAX as nat) {
        Some(v) => Some(v as u32),
        None => None,
    }
}

/// The `u32` that a bitmap text spells.
pub open spec fn bitmap_u32(s: Seq<char>) -> Option<u32> {
    match parsed_number(without_binary_prefix(s), 2, u32::MAX as nat) {
        Some(v) => Some(v as u32),
        None => None,
    }
}

/// The `u64` that a bitmap text spells.
pub open spec fn bitmap_u64(s: Seq<char>) -> Option<u64> {
    match parsed_number(without_binary_prefix(s), 2, u64::MAX as nat) {
        Some(v) => Some(v as u64),
        None => None,
    }
}

/// The last `width` binary digits of `v`, most significant first.
pub open spec fn binary_text(v: nat, width: nat) -> Seq<char>
    decreases width,
{
    if width == 0 {
        Seq::empty()
    } else {
        binary_text(v / 2, (width - 1) as nat).push(
            if v % 2 == 1 {
                '1'
            } else {
                '0'
            },
        )
    }
}

/// How many binary digits `v` needs; zero needs one.
pub open spec fn binary_len(v: nat) -> nat
    decreases v,
{
    if v < 2 {
        1
    } else {
        1 + binary_len(v / 2)
    }
}

/// `v` as a bitmap text: `0b` and its binary digits, padded with zeros to `bits` digits.
pub open spec fn bitmap_text(v: nat, bits: nat) -> Seq<char> {
    let width = if bits > binary_len(v) {
        bits
    } else {
        binary_len(v)
    };
    seq!['0', 'b'] + binary_text(v, width)
}

fn digit_value(c: char, radix: u64) -> (r: Option<u64>)
    requires
        2 <= radix <= 16,
    ensures
        match r {
            Some(d) => radix_digit(c, radix as nat) == Some(d as nat) && d < radix,
            None => radix_digit(c, radix as nat) is None,
        },
{
    let d: u64 = if '0' <= c && c <= '9' {
        c as u64 - '0' as u64
    } else if 'a' <= c && c <= 'f' {
        c as u64 - 'a' as u64 + 10
    } else if 'A' <= c && c <= 'F' {
        c as u64 - 'A' as u64 + 10
    } else {
        radix
    };
    if d < radix {
        Some(d)
    } else {
        None
    }
}

proof fn digits_value_grows(s: Seq<char>, radix: nat, k: nat)
    requires
        k <= s.len(),
        radix >= 1,
        digits_value(s, radix) is Some,
    ensures
        digits_value(s.take(k as int), radix) is Some,
        digits_value(s.take(k as int), radix)->0 <= digits_value(s, radix)->0,
    decreases s.len() - k,
{
    if k == s.len() {
        assert(s.take(k as int) =~= s);
    } else {
        digits_value_grows(s, radix, k + 1);
        let longer = s.take(k as int + 1);
        assert(longer.drop_last() =~= s.take(k as int));
        let v = digits_value(s.take(k as int), radix)->0;
        assert(v * radix >= v) by (nonlinear_arith)
            requires
                radix >= 1,
                v >= 0,
        ;
    }
}

/// Parses the number that `chars[from..]` spells.
fn parse_number(chars: &Vec<char>, from: usize, radix: u64, max: u64) -> (r: Option<u64>)
    requires
        from <= chars@.len(),
        2 <= radix <= 16,
    ensures
        match r {
            Some(v) => parsed_number(chars@.skip(from as int), radix as nat, max as nat) == Some(
                v as nat,
            ),
            None => parsed_number(chars@.skip(from as int), radix as nat, max as nat) is None,
        },
{
    let ghost whole = chars@.skip(from as int);
    let start: usize = if from < chars.len() && chars[from] == '+' {
        from + 1
    } else {
        from
    };
    let ghost body = chars@.skip(start as int);
    proof {
        if start == from + 1 {
            assert(whole.skip(1) =~= body);
        }
    }
    if start >= chars.len() {
        return None;
    }
    let mut value: u64 = 0;
    let mut i: usize = start;
    proof {
        assert(body.take(0) =~= Seq::<char>::empty());
    }
    while i < chars.len()
        invariant
            start <= i <= chars@.len(),
            2 <= radix <= 16,
            body == chars@.skip(start as int),
            digits_value(body.take(i - start), radix as nat) == Some(value as nat),
            value <= max,
            start < chars@.len(),
            body == (if whole.len() > 0 && whole[0] == '+' {
                whole.skip(1)
            } else {
                whole
            }),
            whole == chars@.skip(from as int),
        decreases chars@.len() - i,
    {
        let ghost k = i - start;
        proof {
            assert(body.take(k + 1).drop_last() =~= body.take(k));
            assert(body.take(k + 1).last() == chars@[i as int]);
        }
        match digit_value(chars[i], radix) {
            None => {
                proof {
                    if digits_value(body, radix as nat) is Some {
                        digits_value_grows(body, radix as nat, (k + 1) as nat);
                    }
                }
                return None;
            },
            Some(d) => {
                if d > max || value > (max - d) / radix {
                    proof {
                        if digits_value(body, radix as nat) is Some {
                            digits_value_grows(body, radix as nat, (k + 1) as nat);
                        }
                        assert(value * radix + d > max) by (nonlinear_arith)
                            requires
                                d > max || value > (max - d) / (radix as int),
                                radix >= 2,
                                value >= 0,
                                d >= 0,
                        ;
                    }
                    return None;
                }
                proof {
                    assert(value * radix + d <= max) by (nonlinear_arith)
                        requires
                            d <= max,
                            value <= (max - d) / (radix as int),
                            radix >= 2,
                    ;
                }
                value = value * radix + d;
            },
        }
        i = i + 1;
    }
    proof {
        assert(body.take(i - start) =~= body);
    }
    Some(value)
}

/// Parses a hexadecimal `u32`, with or without `0x`.
pub fn parse_hex_u32(s: &str) -> (r: Option<u32>)
    ensures
        r == hex_u32(s@),
{
    let chars = chars_of(s);
    let from: usize = if chars.len() >= 2 && chars[0] == '0' && (chars[1] == 'x' || chars[1]
        == 'X') {
        2
    } else {
        0
    };
    proof {
        assert(chars@.skip(0) =~= chars@);
    }
    match parse_number(&chars, from, 16, u32::MAX as u64) {
        Some(v) => Some(v as u32),
        None => None,
    }
}

fn parse_bitmap(s: &str, max: u64) -> (r: Option<u64>)
    ensures
        match r {
            Some(v) => parsed_number(without_binary_prefix(s@), 2, max as nat) == Some(v as nat),
            None => parsed_number(without_binary_prefix(s@), 2, max as nat) is None,
        },
{
    let chars = chars_of(s);
    let from: usize = if chars.len() >= 2 && chars[0] == '0' && chars[1] == 'b' {
        2
    } else {
        0
    };
    proof {
        assert(chars@.skip(0) =~= chars@);
    }
    parse_number(&chars, from, 2, max)
}

/// Parses a binary `u32`, with or without `0b`.
pub fn parse_bitmap_u32(s: &str) -> (r: Option<u32>)
    ensures
        r == bitmap_u32(s@),
{
    match parse_bitmap(s, u32::MAX as u64) {
        Some(v) => Some(v as u32),
        None => None,
    }
}

/// Parses a binary `u64`, with or without `0b`.
pub fn parse_bitmap_u64(s: &str) -> (r: Option<u64>)
    ensures
        r == bitmap_u64(s@),
{
    parse_bitmap(s, u64::MAX)
}

/// Formats `v` as a bitmap of at least `bits` digits.
pub fn format_bitmap(v: u64, bits: usize) -> (r: String)
    ensures
        r@ == bitmap_text(v as nat, bits as nat),
{
    let mut width: usize = 1;
    let mut rest: u64 = v;
    proof {
        lemma2_to64();
        binary_len_is_bounded(v as nat, 64);
    }
    while rest >= 2
        invariant
            width + binary_len(rest as nat) == 1 + binary_len(v as nat),
            binary_len(v as nat) <= 64,
        decreases rest,
    {
        rest = rest / 2;
        width = width + 1;
    }
    if bits > width {
        width = bits;
    }
    let mut low = String::new();
    let mut left: usize = width;
    let mut high: u64 = v;
    proof {
        assert(binary_text(v as nat, width as nat) + low@ =~= binary_text(v as nat, width as nat));
    }
    while left > 0
        invariant
            binary_text(v as nat, width as nat) == binary_text(high as nat, left as nat) + low@,
        decreases left,
    {
        let mut next = String::new();
        let d: char = if high % 2 == 1 {
            '1'
        } else {
            '0'
        };
        next.push(d);
        next.append(low.as_str());
        proof {
            let rest_text = binary_text((high / 2) as nat, (left - 1) as nat);
            assert(rest_text.push(d) + low@ =~= rest_text + next@);
        }
        low = next;
        high = high / 2;
        left = left - 1;
    }
    let mut out = String::new();
    out.push('0');
    out.push('b');
    out.append(low.as_str());
    proof {
        assert(low@ =~= binary_text(v as nat, width as nat));
        assert(out@ =~= seq!['0', 'b'] + low@);
    }
    out
}

proof fn binary_len_is_bounded(v: nat, k: nat)
    requires
        k >= 1,
        v < pow2(k),
    ensures
        binary_len(v) <= k,
    decreases k,
{
    if v >= 2 {
        lemma_pow2_unfold(k);
        if k == 1 {
            lemma2_to64();
        } else {
            binary_len_is_bounded(v / 2, (k - 1) as nat);
        }
    }
}

proof fn binary_len_suffices(v: nat)
    ensures
        v < pow2(binary_len(v)),
    decreases v,
{
    if v < 2 {
        lemma2_to64();
    } else {
        binary_len_suffices(v / 2);
        lemma_pow2_unfold(binary_len(v));
    }
}

proof fn wider_holds(v: nat, k: nat, width: nat)
    requires
        v < pow2(k),
        k <= width,
    ensures
        v < pow2(width),
    decreases width,
{
    if k < width {
        lemma_pow2_unfold(width);
        wider_holds(v, k, (width - 1) as nat);
    }
}

proof fn binary_text_spells(v: nat, width: nat)
    requires
        v < pow2(width),
    ensures
        digits_value(binary_text(v, width), 2) == Some(v),
        binary_text(v, width).len() == width,
        forall|i: int|
            0 <= i < width ==> binary_text(v, width)[i] == '0' || binary_text(v, width)[i] == '1',
    decreases width,
{
    lemma2_to64();
    if width > 0 {
        lemma_pow2_unfold(width);
        binary_text_spells(v / 2, (width - 1) as nat);
        let t = binary_text(v, width);
        assert(t.drop_last() =~= binary_text(v / 2, (width - 1) as nat));
    }
}

/// Formatting and parsing are inverse: the text written for `v` spells `v`, at any width.
pub proof fn bitmap_round_trips_u64(v: u64, bits: nat)
    ensures
        bitmap_u64(bitmap_text(v as nat, bits)) == Some(v),
{
    let n = v as nat;
    let width = if bits > binary_len(n) {
        bits
    } else {
        binary_len(n)
    };
    binary_len_suffices(n);
    wider_holds(n, binary_len(n), width);
    binary_text_spells(n, width);
    let t = bitmap_text(n, bits);
    assert(t.skip(2) =~= binary_text(n, width));
    assert(width >= 1);
}

/// Formatting and parsing are inverse: the text written for `v` spells `v`, at any width.
pub proof fn bitmap_round_trips_u32(v: u32, bits: nat)
    ensures
        bitmap_u32(bitmap_text(v as nat, bits)) == Some(v),
{
    bitmap_round_trips_u64(v as u64, bits);
}

proof fn one_more_digit(s: Seq<char>, c: char, radix: nat, max: nat)
    requires
        2 <= radix <= 16,
    ensures
        parsed_number(s.push(c), radix, max) is Some ==> radix_digit(c, radix) is Some,
        parsed_number(s, radix, max) is Some && radix_digit(c, radix) is Some ==> parsed_number(
            s.push(c),
            radix,
            max,
        ) == if parsed_number(s, radix, max)->0 * radix + radix_digit(c, radix)->0 <= max {
            Some((parsed_number(s, radix, max)->0 * radix + radix_digit(c, radix)->0) as nat)
        } else {
            None
        },
        parsed_number(seq![c], radix, max) == match radix_digit(c, radix) {
            Some(d) => if d <= max {
                Some(d)
            } else {
                None
            },
            None => None,
        },
        parsed_number(Seq::<char>::empty(), radix, max) is None,
        parsed_number(s, radix, max) is None && s.len() > 0 && s != seq!['+'] ==> parsed_number(
            s.push(c),
            radix,
            max,
        ) is None,
{
    let t = s.push(c);
    let body = if s.len() > 0 && s[0] == '+' {
        s.skip(1)
    } else {
        s
    };
    if s.len() == 1 && s[0] == '+' {
        assert(s =~= seq!['+']);
    }
    if digits_value(body, radix) is Some {
        let v = digits_value(body, radix)->0;
        assert(v * radix >= v) by (nonlinear_arith)
            requires
                radix >= 2,
        ;
    }
    if s.len() > 0 && s[0] == '+' {
        assert(t.skip(1) =~= s.skip(1).push(c));
        assert(s.skip(1).push(c).drop_last() =~= s.skip(1));
    } else if s.len() > 0 {
        assert(t.drop_last() =~= s);
    } else {
        assert(t =~= seq![c]);
        assert(t.drop_last() =~= Seq::<char>::empty());
        if c == '+' {
            assert(t.skip(1) =~= Seq::<char>::empty());
        }
    }
    let one = seq![c];
    assert(one.drop_last() =~= Seq::<char>::empty());
    assert(digits_value(one.drop_last(), radix) == Some(0nat));
    assert(one.last() == c);
    assert(0nat * radix == 0) by (nonlinear_arith);
    assert(digits_value(one, radix) == radix_digit(c, radix));
    if c == '+' {
        assert(one.skip(1) =~= Seq::<char>::empty());
    }
}

/// Whether `c` is the hexadecimal digit of `d`, in either case.
pub open spec fn is_hex_digit_of(c: char, d: int) -> bool {
    ||| '0' <= c && c <= '9' && d == c as int - 48
    ||| 'a' <= c && c <= 'f' && d == c as int - 87
    ||| 'A' <= c && c <= 'F' && d == c as int - 55
}

/// A hexadecimal text is read digit by digit: one more digit makes sixteen of what stood before and
/// adds its own value, letters of either case from ten on; whatever is no digit, or no longer fits
/// in 32 bits, is no number, and neither is an empty text.
pub proof fn hex_texts_are_read_by_digits(s: Seq<char>, c: char, d: int)
    ensures
        is_hex_digit_of(c, d) ==> hex_u32(seq![c]) == Some(d as u32),
        is_hex_digit_of(c, d) && hex_u32(s) is Some ==> hex_u32(s.push(c)) == if hex_u32(s)->0 * 16
            + d <= 0xffff_ffff {
            Some((hex_u32(s)->0 * 16 + d) as u32)
        } else {
            None
        },
        s.len() >= 2 && hex_u32(s.push(c)) is Some ==> exists|e: int| #[trigger]
            is_hex_digit_of(c, e),
        hex_u32(Seq::<char>::empty()) is None,
        hex_u32(seq!['0', 'x']) is None,
{
    one_more_digit(without_hex_prefix(s), c, 16, u32::MAX as nat);
    if s.len() >= 2 {
        assert(s.push(c).skip(2) =~= s.skip(2).push(c));
    }
    assert(without_hex_prefix(seq![c]) == seq![c]);
    assert(seq!['0', 'x'].skip(2) =~= Seq::<char>::empty());
    if radix_digit(c, 16) is Some {
        let e = radix_digit(c, 16)->0 as int;
        assert(is_hex_digit_of(c, e));
    }
    if is_hex_digit_of(c, d) {
        assert(radix_digit(c, 16) == Some(d as nat));
        if hex_u32(s) is Some && s.len() == 1 {
            assert(c != 'x' && c != 'X');
        }
        if s.len() == 0 {
            assert(s =~= Seq::<char>::empty());
        }
    }
}

/// A hexadecimal text means the same with `0x` or `0X` before it as without.
pub proof fn hex_prefixes_change_nothing(s: Seq<char>)
    requires
        !(s.len() >= 2 && s[0] == '0' && (s[1] == 'x' || s[1] == 'X')),
    ensures
        hex_u32(seq!['0', 'x'] + s) == hex_u32(s),
        hex_u32(seq!['0', 'X'] + s) == hex_u32(s),
{
    assert((seq!['0', 'x'] + s).skip(2) =~= s);
    assert((seq!['0', 'X'] + s).skip(2) =~= s);
}

/// What starts as no hexadecimal number stays none, whatever follows, unless it is a sign or a
/// prefix that waits for its digits.
pub proof fn broken_hex_texts_stay_broken(s: Seq<char>, c: char)
    requires
        hex_u32(s) is None,
        s.len() > 0,
        s != seq!['+'],
        s != seq!['0', 'x'],
        s != seq!['0', 'X'],
        s != seq!['0', 'x', '+'],
        s != seq!['0', 'X', '+'],
    ensures
        hex_u32(s.push(c)) is None,
{
    let body = without_hex_prefix(s);
    one_more_digit(body, c, 16, u32::MAX as nat);
    if s.len() >= 2 {
        assert(s.push(c).skip(2) =~= s.skip(2).push(c));
        if body != s {
            if s.len() == 2 {
                assert(s =~= seq![s[0], s[1]]);
            }
            if body == seq!['+'] {
                assert(s.skip(2)[0] == s[2]);
                assert(s =~= seq![s[0], s[1], '+']);
            }
        }
    } else {
        assert(s =~= seq![s[0]]);
        one_more_digit(s, s[0], 16, u32::MAX as nat);
        if s[0] == '0' {
            assert(radix_digit('0', 16) == Some(0nat));
        }
    }
}

proof fn digits_are_digits(s: Seq<char>, radix: nat, i: int)
    requires
        digits_value(s, radix) is Some,
        0 <= i < s.len(),
    ensures
        radix_digit(s[i], radix) is Some,
    decreases s.len(),
{
    if i < s.len() - 1 {
        digits_are_digits(s.drop_last(), radix, i);
    }
}

proof fn one_sign_is_skipped(s: Seq<char>, radix: nat, max: nat)
    requires
        2 <= radix <= 16,
    ensures
        s.len() == 0 || s[0] != '+' ==> parsed_number(seq!['+'] + s, radix, max) == parsed_number(
            s,
            radix,
            max,
        ),
        s.len() > 0 && s[0] == '+' ==> parsed_number(seq!['+'] + s, radix, max) is None,
        s.len() > 0 && s[0] == '-' ==> parsed_number(s, radix, max) is None,
{
    assert((seq!['+'] + s).skip(1) =~= s);
    if s.len() > 0 && digits_value(s, radix) is Some {
        digits_are_digits(s, radix, 0);
    }
}

/// One plus sign before the digits of a number changes nothing; a second one, or a minus, makes it
/// none.
pub proof fn numbers_may_have_one_plus(s: Seq<char>)
    requires
        without_hex_prefix(s) == s,
        without_binary_prefix(s) == s,
    ensures
        s.len() == 0 || s[0] != '+' ==> hex_u32(seq!['+'] + s) == hex_u32(s) && bitmap_u32(
            seq!['+'] + s,
        ) == bitmap_u32(s) && bitmap_u64(seq!['+'] + s) == bitmap_u64(s),
        s.len() > 0 && s[0] == '+' ==> hex_u32(seq!['+'] + s) is None && bitmap_u32(
            seq!['+'] + s,
        ) is None && bitmap_u64(seq!['+'] + s) is None,
        s.len() > 0 && s[0] == '-' ==> hex_u32(s) is None && bitmap_u32(s) is None && bitmap_u64(
            s,
        ) is None,
{
    one_sign_is_skipped(s, 16, u32::MAX as nat);
    one_sign_is_skipped(s, 2, u32::MAX as nat);
    one_sign_is_skipped(s, 2, u64::MAX as nat);
    assert((seq!['+'] + s)[0] == '+');
}

proof fn binary_digits()
    ensures
        radix_digit('0', 2) == Some(0nat),
        radix_digit('1', 2) == Some(1nat),
        forall|c: char| #[trigger] radix_digit(c, 2) is Some ==> c == '0' || c == '1',
{
}

proof fn prefixes_and_digits_part(s: Seq<char>, c: char)
    ensures
        s.len() >= 2 ==> without_binary_prefix(s.push(c)) == without_binary_prefix(s).push(c),
        c != 'b' ==> without_binary_prefix(s.push(c)) == without_binary_prefix(s).push(c),
        without_binary_prefix(seq!['0', 'b'] + s) == s,
{
    if s.len() >= 2 {
        assert(s.push(c).skip(2) =~= s.skip(2).push(c));
    }
    assert((seq!['0', 'b'] + s).skip(2) =~= s);
}

/// The bitmap text of a register is read digit by digit: one more digit doubles what stood before
/// and adds its own value; whatever is neither `0` nor `1`, or no longer fits in 32 bits, is no
/// bitmap, and neither is an empty text. `0b` before it changes nothing.
pub proof fn bitmap_texts_are_read_by_digits(s: Seq<char>, c: char)
    ensures
        bitmap_u32(seq!['0']) == Some(0u32),
        bitmap_u32(seq!['1']) == Some(1u32),
        bitmap_u32(s) is Some && (c == '0' || c == '1') ==> bitmap_u32(s.push(c)) == if bitmap_u32(
            s,
        )->0 * 2 + (c as int - 48) <= 0xffff_ffff {
            Some((bitmap_u32(s)->0 * 2 + (c as int - 48)) as u32)
        } else {
            None
        },
        s.len() >= 2 && bitmap_u32(s.push(c)) is Some ==> c == '0' || c == '1',
        bitmap_u32(Seq::<char>::empty()) is None,
        !(s.len() >= 2 && s[0] == '0' && s[1] == 'b') ==> bitmap_u32(seq!['0', 'b'] + s)
            == bitmap_u32(s),
{
    binary_digits();
    prefixes_and_digits_part(s, c);
    one_more_digit(without_binary_prefix(s), c, 2, u32::MAX as nat);
    one_more_digit(s, '0', 2, u32::MAX as nat);
    one_more_digit(s, '1', 2, u32::MAX as nat);
}

/// The bitmap text of an MSR is read digit by digit, up to 64 bits, as that of a register is up to
/// 32.
pub proof fn wide_bitmap_texts_are_read_by_digits(s: Seq<char>, c: char)
    ensures
        bitmap_u64(seq!['0']) == Some(0u64),
        bitmap_u64(seq!['1']) == Some(1u64),
        bitmap_u64(s) is Some && (c == '0' || c == '1') ==> bitmap_u64(s.push(c)) == if bitmap_u64(
            s,
        )->0 * 2 + (c as int - 48) <= 0xffff_ffff_ffff_ffff {
            Some((bitmap_u64(s)->0 * 2 + (c as int - 48)) as u64)
        } else {
            None
        },
        s.len() >= 2 && bitmap_u64(s.push(c)) is Some ==> c == '0' || c == '1',
        bitmap_u64(Seq::<char>::empty()) is None,
        !(s.len() >= 2 && s[0] == '0' && s[1] == 'b') ==> bitmap_u64(seq!['0', 'b'] + s)
            == bitmap_u64(s),
{
    binary_digits();
    prefixes_and_digits_part(s, c);
    one_more_digit(without_binary_prefix(s), c, 2, u64::MAX as nat);
    one_more_digit(s, '0', 2, u64::MAX as nat);
    one_more_digit(s, '1', 2, u64::MAX as nat);
}

proof fn binary_text_is_wide(v: nat, width: nat)
    ensures
        binary_text(v, width).len() == width,
    decreases width,
{
    if width > 0 {
        binary_text_is_wide(v / 2, (width - 1) as nat);
    }
}

/// A bitmap is written with its prefix and every digit: 32 for a register, 64 for an MSR.
pub proof fn bitmaps_are_written_in_full(v: u32, w: u64)
    ensures
        bitmap_text(v as nat, 32).len() == 34,
        bitmap_text(w as nat, 64).len() == 66,
        bitmap_text(v as nat, 32)[0] == '0',
        bitmap_text(v as nat, 32)[1] == 'b',
        bitmap_text(w as nat, 64)[0] == '0',
        bitmap_text(w as nat, 64)[1] == 'b',
{
    lemma2_to64();
    binary_len_is_bounded(v as nat, 32);
    binary_len_is_bounded(w as nat, 64);
    binary_text_is_wide(v as nat, 32);
    binary_text_is_wide(w as nat, 64);
}

// ---- intersection ----------------------------------------------------------

/// Whether KVM forbids overriding the CPUID leaf.
pub open spec fn kvm_read_only(leaf: u32) -> bool {
    leaf == 0xb
}

/// Returns whether KVM forbids overriding the CPUID leaf.
pub fn is_kvm_read_only_leaf(leaf: u32) -> (r: bool)
    ensures
        r == kvm_read_only(leaf),
        r <==> leaf == 0xb,
{
    leaf == 0xb
}

/// What identifies the leaf of `m`, where its numbers parse.
pub open spec fn leaf_key(m: CpuidModel) -> Option<CpuidLeafKey> {
    match (hex_u32(m.leaf), hex_u32(m.subleaf)) {
        (Some(leaf), Some(subleaf)) => Some(CpuidLeafKey { leaf, subleaf, flags: m.flags }),
        _ => None,
    }
}

/// The first of the registers before `k` whose bitmap does not parse, as an error.
pub open spec fn register_fault(
    config: int,
    modifier: int,
    registers: Seq<RegisterModel>,
    k: int,
) -> Option<CpuTemplateError>
    decreases k,
{
    if k <= 0 {
        None
    } else {
        match register_fault(config, modifier, registers, k - 1) {
            Some(e) => Some(e),
            None => if bitmap_u32(registers[k - 1].bitmap) is None {
                Some(
                    CpuTemplateError::CpuidBitmap {
                        config: config as usize,
                        modifier: modifier as usize,
                        register: (k - 1) as usize,
                    },
                )
            } else {
                None
            },
        }
    }
}

/// What does not parse in one CPUID modifier: its leaf, else its subleaf, else the first bitmap.
pub open spec fn modifier_fault(config: int, modifier: int, m: CpuidModel) -> Option<
    CpuTemplateError,
> {
    if hex_u32(m.leaf) is None {
        Some(
            CpuTemplateError::CpuidLeaf { config: config as usize, modifier: modifier as usize },
        )
    } else if hex_u32(m.subleaf) is None {
        Some(
            CpuTemplateError::CpuidSubleaf {
                config: config as usize,
                modifier: modifier as usize,
            },
        )
    } else {
        register_fault(config, modifier, m.modifiers, m.modifiers.len() as int)
    }
}

/// The first fault among the CPUID modifiers before `k` of one config.
pub open spec fn modifiers_fault(config: int, mods: Seq<CpuidModel>, k: int) -> Option<
    CpuTemplateError,
>
    decreases k,
{
    if k <= 0 {
        None
    } else {
        match modifiers_fault(config, mods, k - 1) {
            Some(e) => Some(e),
            None => modifier_fault(config, k - 1, mods[k - 1]),
        }
    }
}

/// The first fault among the CPUID modifiers of the configs before `k`.
pub open spec fn cpuid_fault(configs: Seq<ConfigModel>, k: int) -> Option<CpuTemplateError>
    decreases k,
{
    if k <= 0 {
        None
    } else {
        match cpuid_fault(configs, k - 1) {
            Some(e) => Some(e),
            None => modifiers_fault(
                k - 1,
                configs[k - 1].cpuid_modifiers,
                configs[k - 1].cpuid_modifiers.len() as int,
            ),
        }
    }
}

/// What the first `k` register entries say of `register`: the last entry counts.
pub open spec fn register_entry(
    registers: Seq<RegisterModel>,
    register: Seq<char>,
    k: int,
) -> Option<u32>
    decreases k,
{
    if k <= 0 {
        None
    } else if registers[k - 1].register == register {
        bitmap_u32(registers[k - 1].bitmap)
    } else {
        register_entry(registers, register, k - 1)
    }
}

/// What the first `k` CPUID modifiers say of `register` in the leaf `key`: the last entry counts.
pub open spec fn leaf_register(
    mods: Seq<CpuidModel>,
    key: CpuidLeafKey,
    register: Seq<char>,
    k: int,
) -> Option<u32>
    decreases k,
{
    if k <= 0 {
        None
    } else if leaf_key(mods[k - 1]) == Some(key) && register_entry(
        mods[k - 1].modifiers,
        register,
        mods[k - 1].modifiers.len() as int,
    ) is Some {
        register_entry(mods[k - 1].modifiers, register, mods[k - 1].modifiers.len() as int)
    } else {
        leaf_register(mods, key, register, k - 1)
    }
}

/// The bits that a config sets for `register` in the leaf `key`.
pub open spec fn register_bits(c: ConfigModel, key: CpuidLeafKey, register: Seq<char>) -> Option<
    u32,
> {
    leaf_register(c.cpuid_modifiers, key, register, c.cpuid_modifiers.len() as int)
}

/// Whether a config has the leaf `key`.
pub open spec fn has_leaf(c: ConfigModel, key: CpuidLeafKey) -> bool {
    exists|j: int|
        0 <= j < c.cpuid_modifiers.len() && leaf_key(#[trigger] c.cpuid_modifiers[j]) == Some(key)
}

/// The bitwise AND over the configs before `k`; a config without the register counts as zero.
pub open spec fn register_and(
    configs: Seq<ConfigModel>,
    key: CpuidLeafKey,
    register: Seq<char>,
    k: int,
) -> u32
    decreases k,
{
    if k <= 0 {
        u32::MAX
    } else {
        register_and(configs, key, register, k - 1) & match register_bits(
            configs[k - 1],
            key,
            register,
        ) {
            Some(v) => v,
            None => 0,
        }
    }
}

/// Whether the register entry `k` is the first of its name and every config has the register.
pub open spec fn register_survives(
    configs: Seq<ConfigModel>,
    key: CpuidLeafKey,
    registers: Seq<RegisterModel>,
    k: int,
) -> bool {
    &&& forall|p: int| 0 <= p < k ==> (#[trigger] registers[p]).register != registers[k].register
    &&& forall|c: int|
        0 <= c < configs.len() ==> register_bits(
            #[trigger] configs[c],
            key,
            registers[k].register,
        ) is Some
}

/// The surviving entries among the first `k`, each with the AND of its bits.
pub open spec fn shared_registers(
    configs: Seq<ConfigModel>,
    key: CpuidLeafKey,
    registers: Seq<RegisterModel>,
    k: int,
) -> Seq<RegisterModel>
    decreases k,
{
    if k <= 0 {
        Seq::empty()
    } else {
        let rest = shared_registers(configs, key, registers, k - 1);
        if register_survives(configs, key, registers, k - 1) {
            rest.push(
                RegisterModel {
                    register: registers[k - 1].register,
                    bitmap: bitmap_text(
                        register_and(
                            configs,
                            key,
                            registers[k - 1].register,
                            configs.len() as int,
                        ) as nat,
                        32,
                    ),
                },
            )
        } else {
            rest
        }
    }
}

/// Whether modifier `k` of the first config is the first of its leaf, every config has the leaf,
/// and KVM lets it be overridden.
pub open spec fn leaf_survives(configs: Seq<ConfigModel>, k: int) -> bool {
    let mods = configs[0].cpuid_modifiers;
    match leaf_key(mods[k]) {
        Some(key) => {
            &&& forall|p: int| 0 <= p < k ==> leaf_key(#[trigger] mods[p]) != Some(key)
            &&& forall|c: int| 0 <= c < configs.len() ==> has_leaf(#[trigger] configs[c], key)
            &&& !kvm_read_only(key.leaf)
        },
        None => false,
    }
}

/// The registers of modifier `k` of the first config that every config has.
pub open spec fn leaf_registers(configs: Seq<ConfigModel>, k: int) -> Seq<RegisterModel> {
    let m = configs[0].cpuid_modifiers[k];
    shared_registers(configs, leaf_key(m)->0, m.modifiers, m.modifiers.len() as int)
}

/// The CPUID intersection, read off the first `k` modifiers of the first config: surviving leaves
/// with at least one surviving register, in the first config's order and spelling.
pub open spec fn shared_leaves(configs: Seq<ConfigModel>, k: int) -> Seq<CpuidModel>
    decreases k,
{
    if k <= 0 {
        Seq::empty()
    } else {
        let rest = shared_leaves(configs, k - 1);
        let m = configs[0].cpuid_modifiers[k - 1];
        if leaf_survives(configs, k - 1) && leaf_registers(configs, k - 1).len() > 0 {
            rest.push(
                CpuidModel {
                    leaf: m.leaf,
                    subleaf: m.subleaf,
                    flags: m.flags,
                    modifiers: leaf_registers(configs, k - 1),
                },
            )
        } else {
            rest
        }
    }
}

/// The CPUID part of the intersection.
pub open spec fn cpuid_intersection(configs: Seq<ConfigModel>) -> Seq<CpuidModel> {
    shared_leaves(configs, configs[0].cpuid_modifiers.len() as int)
}

/// One CPUID modifier with its numbers parsed; `values` runs along its registers.
struct ParsedLeaf {
    key: CpuidLeafKey,
    values: Vec<u32>,
}

/// `p` holds what the texts of `m` spell.
spec fn reads_leaf(p: ParsedLeaf, m: CpuidModel) -> bool {
    &&& leaf_key(m) == Some(p.key)
    &&& p.values@.len() == m.modifiers.len()
    &&& forall|k: int|
        0 <= k < m.modifiers.len() ==> bitmap_u32((#[trigger] m.modifiers[k]).bitmap) == Some(
            p.values@[k],
        )
}

/// `p` holds what the texts of all of `mods` spell.
spec fn reads_leaves(p: Seq<ParsedLeaf>, mods: Seq<CpuidModel>) -> bool {
    &&& p.len() == mods.len()
    &&& forall|j: int| 0 <= j < mods.len() ==> reads_leaf(p[j], #[trigger] mods[j])
}

/// `p` holds what the texts of all CPUID modifiers of all `configs` spell.
spec fn reads_cpuid(p: Seq<Vec<ParsedLeaf>>, configs: Seq<ConfigModel>) -> bool {
    &&& p.len() == configs.len()
    &&& forall|c: int|
        0 <= c < configs.len() ==> reads_leaves(p[c]@, (#[trigger] configs[c]).cpuid_modifiers)
}

/// Identifies the leaf of a modifier; `config` and `modifier` say where it stands.
pub fn make_cpuid_leaf_key(m: &CpuidModifier, config: usize, modifier: usize) -> (r: Result<
    CpuidLeafKey,
    CpuTemplateError,
>)
    ensures
        match r {
            Ok(key) => leaf_key(m@) == Some(key),
            Err(e) => leaf_key(m@) is None && modifier_fault(
                config as int,
                modifier as int,
                m@,
            ) == Some(e),
        },
{
    let leaf: u32 = match parse_hex_u32(m.leaf.as_str()) {
        Some(v) => v,
        None => {
            return Err(CpuTemplateError::CpuidLeaf { config, modifier });
        },
    };
    let subleaf: u32 = match parse_hex_u32(m.subleaf.as_str()) {
        Some(v) => v,
        None => {
            return Err(CpuTemplateError::CpuidSubleaf { config, modifier });
        },
    };
    Ok(CpuidLeafKey { leaf, subleaf, flags: m.flags })
}

fn parse_leaf(m: &CpuidModifier, config: usize, modifier: usize) -> (r: Result<
    ParsedLeaf,
    CpuTemplateError,
>)
    ensures
        match r {
            Ok(p) => reads_leaf(p, m@) && modifier_fault(config as int, modifier as int, m@)
                is None,
            Err(e) => modifier_fault(config as int, modifier as int, m@) == Some(e),
        },
{
    let key = match make_cpuid_leaf_key(m, config, modifier) {
        Ok(key) => key,
        Err(e) => {
            return Err(e);
        },
    };
    let mut values: Vec<u32> = Vec::new();
    let mut k: usize = 0;
    while k < m.modifiers.len()
        invariant
            k <= m.modifiers@.len(),
            leaf_key(m@) == Some(key),
            values@.len() == k,
            forall|q: int|
                0 <= q < k ==> bitmap_u32((#[trigger] m@.modifiers[q]).bitmap) == Some(values@[q]),
            register_fault(config as int, modifier as int, m@.modifiers, k as int) is None,
        decreases m.modifiers@.len() - k,
    {
        proof {
            register_fault_is_first(
                config as int,
                modifier as int,
                m@.modifiers,
                k as int + 1,
                m@.modifiers.len() as int,
            );
        }
        assert(m@.modifiers[k as int].bitmap == m.modifiers@[k as int].bitmap@);
        match parse_bitmap_u32(m.modifiers[k].bitmap.as_str()) {
            Some(v) => values.push(v),
            None => {
                return Err(CpuTemplateError::CpuidBitmap { config, modifier, register: k });
            },
        }
        k = k + 1;
    }
    Ok(ParsedLeaf { key, values })
}

proof fn register_fault_is_first(
    config: int,
    modifier: int,
    registers: Seq<RegisterModel>,
    k: int,
    n: int,
)
    requires
        0 <= k <= n,
    ensures
        register_fault(config, modifier, registers, k) is Some ==> register_fault(
            config,
            modifier,
            registers,
            n,
        ) == register_fault(config, modifier, registers, k),
    decreases n - k,
{
    if k < n {
        register_fault_is_first(config, modifier, registers, k + 1, n);
    }
}

proof fn modifiers_fault_is_first(config: int, mods: Seq<CpuidModel>, k: int, n: int)
    requires
        0 <= k <= n,
    ensures
        modifiers_fault(config, mods, k) is Some ==> modifiers_fault(config, mods, n)
            == modifiers_fault(config, mods, k),
    decreases n - k,
{
    if k < n {
        modifiers_fault_is_first(config, mods, k + 1, n);
    }
}

proof fn cpuid_fault_is_first(configs: Seq<ConfigModel>, k: int, n: int)
    requires
        0 <= k <= n,
    ensures
        cpuid_fault(configs, k) is Some ==> cpuid_fault(configs, n) == cpuid_fault(configs, k),
    decreases n - k,
{
    if k < n {
        cpuid_fault_is_first(configs, k + 1, n);
    }
}

fn parse_cpuid(configs: &Vec<CpuConfig>) -> (r: Result<Vec<Vec<ParsedLeaf>>, CpuTemplateError>)
    ensures
        match r {
            Ok(p) => reads_cpuid(p@, config_models(configs@)) && cpuid_fault(
                config_models(configs@),
                configs@.len() as int,
            ) is None,
            Err(e) => cpuid_fault(config_models(configs@), configs@.len() as int) == Some(e),
        },
{
    let ghost models = config_models(configs@);
    let mut out: Vec<Vec<ParsedLeaf>> = Vec::new();
    let mut c: usize = 0;
    while c < configs.len()
        invariant
            c <= configs@.len(),
            models == config_models(configs@),
            out@.len() == c,
            forall|q: int|
                0 <= q < c ==> reads_leaves(out@[q]@, (#[trigger] models[q]).cpuid_modifiers),
            cpuid_fault(models, c as int) is None,
        decreases configs@.len() - c,
    {
        let mods = &configs[c].cpuid_modifiers;
        let ghost mm = models[c as int].cpuid_modifiers;
        let mut leaves: Vec<ParsedLeaf> = Vec::new();
        let mut j: usize = 0;
        while j < mods.len()
            invariant
                j <= mods@.len(),
                c < configs@.len(),
                models == config_models(configs@),
                *mods == configs@[c as int].cpuid_modifiers,
                mm == models[c as int].cpuid_modifiers,
                leaves@.len() == j,
                forall|q: int| 0 <= q < j ==> reads_leaf(leaves@[q], #[trigger] mm[q]),
                modifiers_fault(c as int, mm, j as int) is None,
                cpuid_fault(models, c as int) is None,
            decreases mods@.len() - j,
        {
            proof {
                assert(mm[j as int] == mods@[j as int]@);
                assert(mm.len() == mods@.len());
                modifiers_fault_is_first(c as int, mm, j as int + 1, mm.len() as int);
                cpuid_fault_is_first(models, c as int + 1, models.len() as int);
            }
            match parse_leaf(&mods[j], c, j) {
                Ok(p) => leaves.push(p),
                Err(e) => {
                    return Err(e);
                },
            }
            j = j + 1;
        }
        out.push(leaves);
        c = c + 1;
    }
    Ok(out)
}

/// The last entry for `register` among the registers of one modifier.
fn find_register(registers: &Vec<RegisterMod>, values: &Vec<u32>, register: &String) -> (r: Option<
    u32,
>)
    requires
        values@.len() == registers@.len(),
        forall|k: int|
            0 <= k < registers@.len() ==> bitmap_u32((#[trigger] registers@[k])@.bitmap) == Some(
                values@[k],
            ),
    ensures
        r == register_entry(
            Seq::new(registers@.len(), |i: int| registers@[i]@),
            register@,
            registers@.len() as int,
        ),
{
    let ghost rs = Seq::new(registers@.len(), |i: int| registers@[i]@);
    let mut k: usize = registers.len();
    while k > 0
        invariant
            k <= registers@.len(),
            values@.len() == registers@.len(),
            rs == Seq::new(registers@.len(), |i: int| registers@[i]@),
            forall|k: int|
                0 <= k < registers@.len() ==> bitmap_u32((#[trigger] registers@[k])@.bitmap)
                    == Some(values@[k]),
            register_entry(rs, register@, registers@.len() as int) == register_entry(
                rs,
                register@,
                k as int,
            ),
        decreases k,
    {
        k = k - 1;
        assert(rs[k as int] == registers@[k as int]@);
        if registers[k].register == *register {
            return Some(values[k]);
        }
    }
    None
}

/// The bits that a config sets for `register` in the leaf `key`.
fn find_bits(
    config: &CpuConfig,
    leaves: &Vec<ParsedLeaf>,
    key: CpuidLeafKey,
    register: &String,
) -> (r: Option<u32>)
    requires
        reads_leaves(leaves@, config@.cpuid_modifiers),
    ensures
        r == register_bits(config@, key, register@),
{
    let mods = &config.cpuid_modifiers;
    let ghost mm = config@.cpuid_modifiers;
    let mut k: usize = mods.len();
    while k > 0
        invariant
            k <= mods@.len(),
            *mods == config.cpuid_modifiers,
            mm == config@.cpuid_modifiers,
            reads_leaves(leaves@, mm),
            register_bits(config@, key, register@) == leaf_register(mm, key, register@, k as int),
        decreases k,
    {
        k = k - 1;
        assert(mm[k as int] == mods@[k as int]@);
        assert(reads_leaf(leaves@[k as int], mm[k as int]));
        if leaves[k].key == key {
            assert forall|q: int| 0 <= q < mods@[k as int].modifiers@.len() implies bitmap_u32(
                (#[trigger] mods@[k as int].modifiers@[q])@.bitmap,
            ) == Some(leaves@[k as int].values@[q]) by {
                assert(mm[k as int].modifiers[q] == mods@[k as int].modifiers@[q]@);
            }
            let found = find_register(&mods[k].modifiers, &leaves[k].values, register);
            if found.is_some() {
                return found;
            }
        }
    }
    None
}

/// Whether one config has the leaf `key`.
fn find_leaf(config: &CpuConfig, leaves: &Vec<ParsedLeaf>, key: CpuidLeafKey) -> (r: bool)
    requires
        reads_leaves(leaves@, config@.cpuid_modifiers),
    ensures
        r == has_leaf(config@, key),
{
    let ghost mm = config@.cpuid_modifiers;
    let mut k: usize = 0;
    while k < leaves.len()
        invariant
            k <= leaves@.len(),
            mm == config@.cpuid_modifiers,
            reads_leaves(leaves@, mm),
            forall|j: int| 0 <= j < k ==> leaf_key(#[trigger] mm[j]) != Some(key),
        decreases leaves@.len() - k,
    {
        assert(reads_leaf(leaves@[k as int], mm[k as int]));
        if leaves[k].key == key {
            return true;
        }
        k = k + 1;
    }
    false
}

/// Whether every config has the leaf `key`.
fn every_config_has_leaf(
    configs: &Vec<CpuConfig>,
    parsed: &Vec<Vec<ParsedLeaf>>,
    key: CpuidLeafKey,
) -> (r: bool)
    requires
        reads_cpuid(parsed@, config_models(configs@)),
    ensures
        r == (forall|c: int|
            0 <= c < configs@.len() ==> has_leaf(#[trigger] config_models(configs@)[c], key)),
{
    let ghost models = config_models(configs@);
    let mut c: usize = 0;
    while c < configs.len()
        invariant
            c <= configs@.len(),
            models == config_models(configs@),
            reads_cpuid(parsed@, models),
            forall|q: int| 0 <= q < c ==> has_leaf(#[trigger] models[q], key),
        decreases configs@.len() - c,
    {
        assert(reads_leaves(parsed@[c as int]@, models[c as int].cpuid_modifiers));
        if !find_leaf(&configs[c], &parsed[c], key) {
            assert(!has_leaf(models[c as int], key));
            return false;
        }
        c = c + 1;
    }
    true
}

/// The AND of the bits of `register` over all configs, where every config has the register.
fn and_register(
    configs: &Vec<CpuConfig>,
    parsed: &Vec<Vec<ParsedLeaf>>,
    key: CpuidLeafKey,
    register: &String,
) -> (r: Option<u32>)
    requires
        reads_cpuid(parsed@, config_models(configs@)),
    ensures
        match r {
            Some(v) => {
                &&& forall|c: int|
                    0 <= c < configs@.len() ==> register_bits(
                        #[trigger] config_models(configs@)[c],
                        key,
                        register@,
                    ) is Some
                &&& v == register_and(
                    config_models(configs@),
                    key,
                    register@,
                    configs@.len() as int,
                )
            },
            None => exists|c: int|
                0 <= c < configs@.len() && register_bits(
                    #[trigger] config_models(configs@)[c],
                    key,
                    register@,
                ) is None,
        },
{
    let ghost models = config_models(configs@);
    let mut value: u32 = u32::MAX;
    let mut c: usize = 0;
    while c < configs.len()
        invariant
            c <= configs@.len(),
            models == config_models(configs@),
            reads_cpuid(parsed@, models),
            forall|q: int|
                0 <= q < c ==> register_bits(#[trigger] models[q], key, register@) is Some,
            value == register_and(models, key, register@, c as int),
        decreases configs@.len() - c,
    {
        assert(reads_leaves(parsed@[c as int]@, models[c as int].cpuid_modifiers));
        match find_bits(&configs[c], &parsed[c], key, register) {
            Some(v) => {
                value = value & v;
            },
            None => {
                assert(register_bits(models[c as int], key, register@) is None);
                return None;
            },
        }
        c = c + 1;
    }
    Some(value)
}

/// The registers of one modifier of the first config that every config has.
fn keep_registers(
    configs: &Vec<CpuConfig>,
    parsed: &Vec<Vec<ParsedLeaf>>,
    key: CpuidLeafKey,
    registers: &Vec<RegisterMod>,
) -> (r: Vec<RegisterMod>)
    requires
        reads_cpuid(parsed@, config_models(configs@)),
    ensures
        Seq::new(r@.len(), |i: int| r@[i]@) == shared_registers(
            config_models(configs@),
            key,
            Seq::new(registers@.len(), |i: int| registers@[i]@),
            registers@.len() as int,
        ),
{
    let ghost models = config_models(configs@);
    let ghost rs = Seq::new(registers@.len(), |i: int| registers@[i]@);
    let mut out: Vec<RegisterMod> = Vec::new();
    let mut k: usize = 0;
    proof {
        assert(Seq::new(out@.len(), |i: int| out@[i]@) =~= Seq::<RegisterModel>::empty());
    }
    while k < registers.len()
        invariant
            k <= registers@.len(),
            models == config_models(configs@),
            rs == Seq::new(registers@.len(), |i: int| registers@[i]@),
            reads_cpuid(parsed@, models),
            Seq::new(out@.len(), |i: int| out@[i]@) == shared_registers(models, key, rs, k as int),
        decreases registers@.len() - k,
    {
        let register = &registers[k].register;
        assert(rs[k as int].register == register@);
        let mut seen: bool = false;
        let mut p: usize = 0;
        while p < k
            invariant
                p <= k < registers@.len(),
                rs == Seq::new(registers@.len(), |i: int| registers@[i]@),
                rs[k as int].register == register@,
                seen == (exists|q: int|
                    0 <= q < p && (#[trigger] rs[q]).register == rs[k as int].register),
            decreases k - p,
        {
            assert(rs[p as int].register == registers@[p as int].register@);
            if registers[p].register == *register {
                seen = true;
            }
            p = p + 1;
        }
        let ghost before = out@;
        if !seen {
            if let Some(value) = and_register(configs, parsed, key, register) {
                assert(register_survives(models, key, rs, k as int));
                let entry = RegisterMod {
                    register: register.clone(),
                    bitmap: format_bitmap(value as u64, 32),
                };
                out.push(entry);
                assert(Seq::new(out@.len(), |i: int| out@[i]@) =~= Seq::new(
                    before.len(),
                    |i: int| before[i]@,
                ).push(entry@));
            } else {
                assert(!register_survives(models, key, rs, k as int));
            }
        } else {
            assert(!register_survives(models, key, rs, k as int));
        }
        k = k + 1;
    }
    out
}

/// Intersects the CPUID modifiers: leaves and registers that every config has, in the order and
/// spelling of the first config, with their bitmaps ANDed.
pub fn intersect_cpuid_modifiers(configs: &Vec<CpuConfig>) -> (r: Result<
    Vec<CpuidModifier>,
    CpuTemplateError,
>)
    requires
        configs@.len() > 0,
    ensures
        match r {
            Ok(v) => {
                &&& cpuid_fault(config_models(configs@), configs@.len() as int) is None
                &&& Seq::new(v@.len(), |i: int| v@[i]@) == cpuid_intersection(
                    config_models(configs@),
                )
            },
            Err(e) => cpuid_fault(config_models(configs@), configs@.len() as int) == Some(e),
        },
{
    let parsed = match parse_cpuid(configs) {
        Ok(p) => p,
        Err(e) => {
            return Err(e);
        },
    };
    let ghost models = config_models(configs@);
    let mods = &configs[0].cpuid_modifiers;
    let leaves = &parsed[0];
    let ghost mm = models[0].cpuid_modifiers;
    let mut out: Vec<CpuidModifier> = Vec::new();
    let mut k: usize = 0;
    proof {
        assert(reads_leaves(leaves@, mm));
        assert(Seq::new(out@.len(), |i: int| out@[i]@) =~= Seq::<CpuidModel>::empty());
    }
    while k < mods.len()
        invariant
            k <= mods@.len(),
            configs@.len() > 0,
            models == config_models(configs@),
            *mods == configs@[0].cpuid_modifiers,
            mm == models[0].cpuid_modifiers,
            reads_cpuid(parsed@, models),
            *leaves == parsed@[0],
            reads_leaves(leaves@, mm),
            Seq::new(out@.len(), |i: int| out@[i]@) == shared_leaves(models, k as int),
        decreases mods@.len() - k,
    {
        assert(mm[k as int] == mods@[k as int]@);
        assert(reads_leaf(leaves@[k as int], mm[k as int]));
        let key = leaves[k].key;
        let mut seen: bool = false;
        let mut p: usize = 0;
        while p < k
            invariant
                p <= k < leaves@.len(),
                reads_leaves(leaves@, mm),
                key == leaves@[k as int].key,
                seen == (exists|q: int| 0 <= q < p && leaf_key(#[trigger] mm[q]) == Some(key)),
            decreases k - p,
        {
            assert(reads_leaf(leaves@[p as int], mm[p as int]));
            if leaves[p].key == key {
                seen = true;
            }
            p = p + 1;
        }
        let ghost before = out@;
        if !seen && every_config_has_leaf(configs, &parsed, key) && !is_kvm_read_only_leaf(
            key.leaf,
        ) {
            assert(leaf_survives(models, k as int));
            let kept = keep_registers(configs, &parsed, key, &mods[k].modifiers);
            proof {
                assert(Seq::new(
                    mods@[k as int].modifiers@.len(),
                    |i: int| mods@[k as int].modifiers@[i]@,
                ) =~= mm[k as int].modifiers);
            }
            if kept.len() > 0 {
                let entry = CpuidModifier {
                    leaf: mods[k].leaf.clone(),
                    subleaf: mods[k].subleaf.clone(),
                    flags: mods[k].flags,
                    modifiers: kept,
                };
                out.push(entry);
                assert(entry@.modifiers == leaf_registers(models, k as int));
                assert(Seq::new(out@.len(), |i: int| out@[i]@) =~= Seq::new(
                    before.len(),
                    |i: int| before[i]@,
                ).push(entry@));
            }
        } else {
            assert(!leaf_survives(models, k as int));
        }
        k = k + 1;
    }
    Ok(out)
}

// ---- model-specific registers ----------------------------------------------

/// The first fault among the MSR modifiers before `k` of one config: an address that does not
/// parse, else a bitmap that does not.
pub open spec fn msrs_fault(config: int, mods: Seq<MsrModel>, k: int) -> Option<CpuTemplateError>
    decreases k,
{
    if k <= 0 {
        None
    } else {
        match msrs_fault(config, mods, k - 1) {
            Some(e) => Some(e),
            None => if hex_u32(mods[k - 1].addr) is None {
                Some(
                    CpuTemplateError::MsrAddr {
                        config: config as usize,
                        modifier: (k - 1) as usize,
                    },
                )
            } else if bitmap_u64(mods[k - 1].bitmap) is None {
                Some(
                    CpuTemplateError::MsrBitmap {
                        config: config as usize,
                        modifier: (k - 1) as usize,
                    },
                )
            } else {
                None
            },
        }
    }
}

/// The first fault among the MSR modifiers of the configs before `k`.
pub open spec fn msr_fault(configs: Seq<ConfigModel>, k: int) -> Option<CpuTemplateError>
    decreases k,
{
    if k <= 0 {
        None
    } else {
        match msr_fault(configs, k - 1) {
            Some(e) => Some(e),
            None => msrs_fault(
                k - 1,
                configs[k - 1].msr_modifiers,
                configs[k - 1].msr_modifiers.len() as int,
            ),
        }
    }
}

/// What the first `k` MSR modifiers say of `addr`: the last entry counts.
pub open spec fn msr_entry(mods: Seq<MsrModel>, addr: u32, k: int) -> Option<u64>
    decreases k,
{
    if k <= 0 {
        None
    } else if hex_u32(mods[k - 1].addr) == Some(addr) {
        bitmap_u64(mods[k - 1].bitmap)
    } else {
        msr_entry(mods, addr, k - 1)
    }
}

/// The bits that a config sets for the MSR `addr`.
pub open spec fn msr_bits(c: ConfigModel, addr: u32) -> Option<u64> {
    msr_entry(c.msr_modifiers, addr, c.msr_modifiers.len() as int)
}

/// The bitwise AND over the configs before `k`; a config without the MSR counts as zero.
pub open spec fn msr_and(configs: Seq<ConfigModel>, addr: u32, k: int) -> u64
    decreases k,
{
    if k <= 0 {
        u64::MAX
    } else {
        msr_and(configs, addr, k - 1) & match msr_bits(configs[k - 1], addr) {
            Some(v) => v,
            None => 0,
        }
    }
}

/// Whether MSR modifier `k` of the first config is the first of its address and every config has
/// the address.
pub open spec fn msr_survives(configs: Seq<ConfigModel>, k: int) -> bool {
    let mods = configs[0].msr_modifiers;
    match hex_u32(mods[k].addr) {
        Some(addr) => {
            &&& forall|p: int| 0 <= p < k ==> hex_u32((#[trigger] mods[p]).addr) != Some(addr)
            &&& forall|c: int| 0 <= c < configs.len() ==> msr_bits(#[trigger] configs[c], addr) is Some
        },
        None => false,
    }
}

/// The MSR intersection, read off the first `k` modifiers of the first config.
pub open spec fn shared_msrs(configs: Seq<ConfigModel>, k: int) -> Seq<MsrModel>
    decreases k,
{
    if k <= 0 {
        Seq::empty()
    } else {
        let rest = shared_msrs(configs, k - 1);
        let m = configs[0].msr_modifiers[k - 1];
        if msr_survives(configs, k - 1) {
            rest.push(
                MsrModel {
                    addr: m.addr,
                    bitmap: bitmap_text(
                        msr_and(configs, hex_u32(m.addr)->0, configs.len() as int) as nat,
                        64,
                    ),
                },
            )
        } else {
            rest
        }
    }
}

/// The MSR part of the intersection.
pub open spec fn msr_intersection(configs: Seq<ConfigModel>) -> Seq<MsrModel> {
    shared_msrs(configs, configs[0].msr_modifiers.len() as int)
}

/// One MSR modifier with its numbers parsed.
struct ParsedMsr {
    addr: u32,
    value: u64,
}

/// `p` holds what the texts of `m` spell.
spec fn reads_msr(p: ParsedMsr, m: MsrModel) -> bool {
    hex_u32(m.addr) == Some(p.addr) && bitmap_u64(m.bitmap) == Some(p.value)
}

/// `p` holds what the texts of all of `mods` spell.
spec fn reads_msrs(p: Seq<ParsedMsr>, mods: Seq<MsrModel>) -> bool {
    &&& p.len() == mods.len()
    &&& forall|j: int| 0 <= j < mods.len() ==> reads_msr(p[j], #[trigger] mods[j])
}

/// `p` holds what the texts of all MSR modifiers of all `configs` spell.
spec fn reads_all_msrs(p: Seq<Vec<ParsedMsr>>, configs: Seq<ConfigModel>) -> bool {
    &&& p.len() == configs.len()
    &&& forall|c: int|
        0 <= c < configs.len() ==> reads_msrs(p[c]@, (#[trigger] configs[c]).msr_modifiers)
}

proof fn msrs_fault_is_first(config: int, mods: Seq<MsrModel>, k: int, n: int)
    requires
        0 <= k <= n,
    ensures
        msrs_fault(config, mods, k) is Some ==> msrs_fault(config, mods, n) == msrs_fault(
            config,
            mods,
            k,
        ),
    decreases n - k,
{
    if k < n {
        msrs_fault_is_first(config, mods, k + 1, n);
    }
}

proof fn msr_fault_is_first(configs: Seq<ConfigModel>, k: int, n: int)
    requires
        0 <= k <= n,
    ensures
        msr_fault(configs, k) is Some ==> msr_fault(configs, n) == msr_fault(configs, k),
    decreases n - k,
{
    if k < n {
        msr_fault_is_first(configs, k + 1, n);
    }
}

fn parse_msrs(configs: &Vec<CpuConfig>) -> (r: Result<Vec<Vec<ParsedMsr>>, CpuTemplateError>)
    ensures
        match r {
            Ok(p) => reads_all_msrs(p@, config_models(configs@)) && msr_fault(
                config_models(configs@),
                configs@.len() as int,
            ) is None,
            Err(e) => msr_fault(config_models(configs@), configs@.len() as int) == Some(e),
        },
{
    let ghost models = config_models(configs@);
    let mut out: Vec<Vec<ParsedMsr>> = Vec::new();
    let mut c: usize = 0;
    while c < configs.len()
        invariant
            c <= configs@.len(),
            models == config_models(configs@),
            out@.len() == c,
            forall|q: int|
                0 <= q < c ==> reads_msrs(out@[q]@, (#[trigger] models[q]).msr_modifiers),
            msr_fault(models, c as int) is None,
        decreases configs@.len() - c,
    {
        let mods = &configs[c].msr_modifiers;
        let ghost mm = models[c as int].msr_modifiers;
        let mut entries: Vec<ParsedMsr> = Vec::new();
        let mut j: usize = 0;
        while j < mods.len()
            invariant
                j <= mods@.len(),
                c < configs@.len(),
                models == config_models(configs@),
                *mods == configs@[c as int].msr_modifiers,
                mm == models[c as int].msr_modifiers,
                entries@.len() == j,
                forall|q: int| 0 <= q < j ==> reads_msr(entries@[q], #[trigger] mm[q]),
                msrs_fault(c as int, mm, j as int) is None,
                msr_fault(models, c as int) is None,
            decreases mods@.len() - j,
        {
            proof {
                assert(mm[j as int] == mods@[j as int]@);
                assert(mm.len() == mods@.len());
                msrs_fault_is_first(c as int, mm, j as int + 1, mm.len() as int);
                msr_fault_is_first(models, c as int + 1, models.len() as int);
            }
            let addr: u32 = match parse_hex_u32(mods[j].addr.as_str()) {
                Some(v) => v,
                None => {
                    return Err(CpuTemplateError::MsrAddr { config: c, modifier: j });
                },
            };
            let value: u64 = match parse_bitmap_u64(mods[j].bitmap.as_str()) {
                Some(v) => v,
                None => {
                    return Err(CpuTemplateError::MsrBitmap { config: c, modifier: j });
                },
            };
            entries.push(ParsedMsr { addr, value });
            j = j + 1;
        }
        out.push(entries);
        c = c + 1;
    }
    Ok(out)
}

/// The last entry for `addr` in one config.
fn find_msr(entries: &Vec<ParsedMsr>, addr: u32, Ghost(mods): Ghost<Seq<MsrModel>>) -> (r: Option<u64>)
    requires
        reads_msrs(entries@, mods),
    ensures
        r == msr_entry(mods, addr, mods.len() as int),
{
    let mut k: usize = entries.len();
    while k > 0
        invariant
            k <= entries@.len(),
            reads_msrs(entries@, mods),
            msr_entry(mods, addr, mods.len() as int) == msr_entry(mods, addr, k as int),
        decreases k,
    {
        k = k - 1;
        assert(reads_msr(entries@[k as int], mods[k as int]));
        if entries[k].addr == addr {
            return Some(entries[k].value);
        }
    }
    None
}

/// Intersects the MSR modifiers: addresses that every config has, in the order and spelling of
/// the first config, with their bitmaps ANDed.
pub fn intersect_msr_modifiers(configs: &Vec<CpuConfig>) -> (r: Result<
    Vec<MsrModifier>,
    CpuTemplateError,
>)
    requires
        configs@.len() > 0,
    ensures
        match r {
            Ok(v) => {
                &&& msr_fault(config_models(configs@), configs@.len() as int) is None
                &&& Seq::new(v@.len(), |i: int| v@[i]@) == msr_intersection(config_models(configs@))
            },
            Err(e) => msr_fault(config_models(configs@), configs@.len() as int) == Some(e),
        },
{
    let parsed = match parse_msrs(configs) {
        Ok(p) => p,
        Err(e) => {
            return Err(e);
        },
    };
    let ghost models = config_models(configs@);
    let mods = &configs[0].msr_modifiers;
    let entries = &parsed[0];
    let ghost mm = models[0].msr_modifiers;
    let mut out: Vec<MsrModifier> = Vec::new();
    let mut k: usize = 0;
    proof {
        assert(reads_msrs(entries@, mm));
        assert(Seq::new(out@.len(), |i: int| out@[i]@) =~= Seq::<MsrModel>::empty());
    }
    while k < mods.len()
        invariant
            k <= mods@.len(),
            configs@.len() > 0,
            models == config_models(configs@),
            *mods == configs@[0].msr_modifiers,
            mm == models[0].msr_modifiers,
            reads_all_msrs(parsed@, models),
            *entries == parsed@[0],
            reads_msrs(entries@, mm),
            Seq::new(out@.len(), |i: int| out@[i]@) == shared_msrs(models, k as int),
        decreases mods@.len() - k,
    {
        assert(mm[k as int] == mods@[k as int]@);
        assert(reads_msr(entries@[k as int], mm[k as int]));
        let addr: u32 = entries[k].addr;
        let mut seen: bool = false;
        let mut p: usize = 0;
        while p < k
            invariant
                p <= k < entries@.len(),
                reads_msrs(entries@, mm),
                addr == entries@[k as int].addr,
                seen == (exists|q: int| 0 <= q < p && hex_u32((#[trigger] mm[q]).addr) == Some(addr)),
            decreases k - p,
        {
            assert(reads_msr(entries@[p as int], mm[p as int]));
            if entries[p].addr == addr {
                seen = true;
            }
            p = p + 1;
        }
        let mut everywhere: bool = true;
        let mut value: u64 = u64::MAX;
        let mut c: usize = 0;
        while c < parsed.len()
            invariant
                c <= parsed@.len(),
                reads_all_msrs(parsed@, models),
                everywhere == (forall|q: int|
                    0 <= q < c ==> msr_bits(#[trigger] models[q], addr) is Some),
                value == msr_and(models, addr, c as int),
            decreases parsed@.len() - c,
        {
            assert(reads_msrs(parsed@[c as int]@, models[c as int].msr_modifiers));
            match find_msr(&parsed[c], addr, Ghost(models[c as int].msr_modifiers)) {
                Some(v) => {
                    value = value & v;
                },
                None => {
                    everywhere = false;
                    value = value & 0;
                    assert(msr_bits(models[c as int], addr) is None);
                },
            }
            c = c + 1;
        }
        let ghost before = out@;
        if !seen && everywhere {
            assert(msr_survives(models, k as int));
            let entry = MsrModifier {
                addr: mods[k].addr.clone(),
                bitmap: format_bitmap(value, 64),
            };
            out.push(entry);
            assert(Seq::new(out@.len(), |i: int| out@[i]@) =~= Seq::new(
                before.len(),
                |i: int| before[i]@,
            ).push(entry@));
        } else {
            assert(!msr_survives(models, k as int));
        }
        k = k + 1;
    }
    Ok(out)
}

// ---- capabilities and the whole ---------------------------------------------

/// The texts stand in strictly increasing order.
pub open spec fn increasing(s: Seq<Seq<char>>) -> bool {
    forall|i: int, j: int| 0 <= i < j < s.len() ==> text_before(#[trigger] s[i], #[trigger] s[j])
}

/// Whether there is a config and every config lists the capability.
pub open spec fn capability_everywhere(configs: Seq<ConfigModel>, capability: Seq<char>) -> bool {
    &&& configs.len() > 0
    &&& forall|c: int|
        0 <= c < configs.len() ==> (#[trigger] configs[c]).kvm_capabilities.contains(capability)
}

/// `s` lists the capabilities that every config lists, each once, in increasing order.
pub open spec fn is_capability_intersection(configs: Seq<ConfigModel>, s: Seq<Seq<char>>) -> bool {
    &&& increasing(s)
    &&& forall|x: Seq<char>| #[trigger] s.contains(x) <==> capability_everywhere(configs, x)
}

/// Whether `v` lists `text`.
fn lists(v: &Vec<String>, text: &String) -> (r: bool)
    ensures
        r == texts(v@).contains(text@),
{
    let mut i: usize = 0;
    while i < v.len()
        invariant
            i <= v@.len(),
            forall|q: int| 0 <= q < i ==> texts(v@)[q] != text@,
        decreases v@.len() - i,
    {
        if v[i] == *text {
            assert(texts(v@)[i as int] == text@);
            return true;
        }
        i = i + 1;
    }
    false
}

/// Adds `text` to an increasing list, unless it is there.
fn insert_sorted(v: &mut Vec<String>, text: String)
    requires
        increasing(texts(old(v)@)),
    ensures
        increasing(texts(final(v)@)),
        forall|x: Seq<char>| #[trigger]
            texts(final(v)@).contains(x) <==> texts(old(v)@).contains(x) || x == text@,
{
    let ghost before = v@;
    let mut p: usize = 0;
    while p < v.len() && comes_before(v[p].as_str(), text.as_str())
        invariant
            p <= v@.len(),
            v@ == before,
            forall|q: int| 0 <= q < p ==> text_before(texts(before)[q], text@),
        decreases v@.len() - p,
    {
        p = p + 1;
    }
    if p < v.len() && v[p] == text {
        assert(texts(before)[p as int] == text@);
        return;
    }
    let ghost t = text@;
    v.insert(p, text);
    proof {
        let old_texts = texts(before);
        let new_texts = texts(v@);
        if p < before.len() {
            text_order_is_total(old_texts[p as int], t);
        }
        assert forall|q: int| p <= q < before.len() implies text_before(t, #[trigger] old_texts[q]) by {
            if q > p {
                text_order_is_transitive(t, old_texts[p as int], old_texts[q]);
            }
        }
        assert(new_texts =~= old_texts.insert(p as int, t));
        assert forall|i: int, j: int| 0 <= i < j < new_texts.len() implies text_before(
            #[trigger] new_texts[i],
            #[trigger] new_texts[j],
        ) by {
            let oi = if i < p { i } else { i - 1 };
            let oj = if j < p { j } else { j - 1 };
            if i != p && j != p {
                assert(text_before(old_texts[oi], old_texts[oj]));
            }
        }
        assert forall|x: Seq<char>| #[trigger] new_texts.contains(x) implies old_texts.contains(x)
            || x == t by {
            let i = choose|i: int| 0 <= i < new_texts.len() && new_texts[i] == x;
            if i != p {
                let o = if i < p { i } else { i - 1 };
                assert(old_texts[o] == x);
            }
        }
        assert forall|x: Seq<char>| old_texts.contains(x) || x == t implies
            #[trigger] new_texts.contains(x) by {
            if x == t {
                assert(new_texts[p as int] == x);
            } else {
                let o = choose|o: int| 0 <= o < old_texts.len() && old_texts[o] == x;
                let i = if o < p { o } else { o + 1 };
                assert(new_texts[i] == x);
            }
        }
    }
}

/// Intersects the capability lists: those that every config lists, sorted, each once.
pub fn intersect_kvm_capabilities(configs: &Vec<CpuConfig>) -> (r: Vec<String>)
    ensures
        is_capability_intersection(config_models(configs@), texts(r@)),
{
    let ghost models = config_models(configs@);
    let mut out: Vec<String> = Vec::new();
    if configs.len() == 0 {
        return out;
    }
    let first = &configs[0].kvm_capabilities;
    let ghost listed = texts(first@);
    let mut k: usize = 0;
    while k < first.len()
        invariant
            k <= first@.len(),
            models == config_models(configs@),
            configs@.len() > 0,
            *first == configs@[0].kvm_capabilities,
            listed == texts(first@),
            increasing(texts(out@)),
            forall|x: Seq<char>| #[trigger]
                texts(out@).contains(x) <==> capability_everywhere(models, x) && listed.take(
                    k as int,
                ).contains(x),
        decreases first@.len() - k,
    {
        let capability = &first[k];
        let mut everywhere: bool = true;
        let mut c: usize = 0;
        while c < configs.len()
            invariant
                c <= configs@.len(),
                models == config_models(configs@),
                everywhere == (forall|q: int|
                    0 <= q < c ==> (#[trigger] models[q]).kvm_capabilities.contains(capability@)),
            decreases configs@.len() - c,
        {
            assert(models[c as int].kvm_capabilities == texts(configs@[c as int].kvm_capabilities@));
            if !lists(&configs[c].kvm_capabilities, capability) {
                everywhere = false;
            }
            c = c + 1;
        }
        let ghost before = texts(out@);
        if everywhere {
            insert_sorted(&mut out, capability.clone());
        }
        proof {
            let seen = listed.take(k as int);
            let more = listed.take(k as int + 1);
            assert(more =~= seen.push(capability@));
            assert forall|x: Seq<char>| #[trigger] texts(out@).contains(x) <==>
                capability_everywhere(models, x) && more.contains(x) by {
                assert(more.last() == capability@);
                assert(more.contains(capability@));
                assert(before.contains(x) <==> capability_everywhere(models, x) && seen.contains(x));
                if more.contains(x) && x != capability@ {
                    let i = choose|i: int| 0 <= i < more.len() && more[i] == x;
                    assert(seen[i] == x);
                }
                if seen.contains(x) {
                    let i = choose|i: int| 0 <= i < seen.len() && seen[i] == x;
                    assert(more[i] == x);
                }
            }
        }
        k = k + 1;
    }
    proof {
        assert(listed.take(k as int) =~= listed);
        assert(models[0].kvm_capabilities == listed);
    }
    out
}

/// The models of configs of which some texts did not parse.
pub open spec fn parsed_models(configs: Seq<Option<CpuConfig>>) -> Seq<ConfigModel> {
    Seq::new(configs.len(), |i: int| configs[i]->0@)
}

/// The first of the configs before `k` whose text did not parse, as an error.
pub open spec fn parse_fault(configs: Seq<Option<CpuConfig>>, k: int) -> Option<CpuTemplateError>
    decreases k,
{
    if k <= 0 {
        None
    } else {
        match parse_fault(configs, k - 1) {
            Some(e) => Some(e),
            None => if configs[k - 1] is None {
                Some(CpuTemplateError::ParseConfig { config: (k - 1) as usize })
            } else {
                None
            },
        }
    }
}

/// Why configs cannot be intersected: a text that did not parse, else the first CPUID fault, else
/// the first MSR fault.
pub open spec fn intersection_fault(configs: Seq<Option<CpuConfig>>) -> Option<CpuTemplateError> {
    let n = configs.len() as int;
    match parse_fault(configs, n) {
        Some(e) => Some(e),
        None => match cpuid_fault(parsed_models(configs), n) {
            Some(e) => Some(e),
            None => msr_fault(parsed_models(configs), n),
        },
    }
}

/// `r` is the intersection of the configs.
pub open spec fn is_intersection(configs: Seq<ConfigModel>, r: ConfigModel) -> bool {
    &&& is_capability_intersection(configs, r.kvm_capabilities)
    &&& r.cpuid_modifiers == cpuid_intersection(configs)
    &&& r.msr_modifiers == msr_intersection(configs)
}

proof fn parse_fault_is_first(configs: Seq<Option<CpuConfig>>, k: int, n: int)
    requires
        0 <= k <= n,
    ensures
        parse_fault(configs, k) is Some ==> parse_fault(configs, n) == parse_fault(configs, k),
    decreases n - k,
{
    if k < n {
        parse_fault_is_first(configs, k + 1, n);
    }
}

/// Intersects configs, retaining only shared entries and ANDing their bitmaps.
///
/// A `None` stands for a config whose text did not parse. Without configs there is nothing to
/// intersect, and the result is `None`.
pub fn intersect_parsed_configs(configs: &Vec<Option<CpuConfig>>) -> (r: Result<
    Option<CpuConfig>,
    CpuTemplateError,
>)
    ensures
        configs@.len() == 0 ==> r == Ok::<_, CpuTemplateError>(None::<CpuConfig>),
        configs@.len() > 0 ==> match r {
            Ok(Some(c)) => intersection_fault(configs@) is None && is_intersection(
                parsed_models(configs@),
                c@,
            ),
            Ok(None) => false,
            Err(e) => intersection_fault(configs@) == Some(e),
        },
{
    let ghost given = configs@;
    if configs.len() == 0 {
        return Ok(None);
    }
    let mut parsed: Vec<CpuConfig> = Vec::new();
    let mut c: usize = 0;
    while c < configs.len()
        invariant
            given == configs@,
            c <= given.len(),
            parsed@.len() == c,
            forall|q: int|
                0 <= q < parsed@.len() ==> #[trigger] given[q] is Some && given[q]->0@
                    == parsed@[q]@,
            parse_fault(given, c as int) is None,
        decreases given.len() - c,
    {
        proof {
            parse_fault_is_first(given, c as int + 1, given.len() as int);
        }
        match &configs[c] {
            Some(value) => parsed.push(value.clone()),
            None => {
                return Err(CpuTemplateError::ParseConfig { config: c });
            },
        }
        c = c + 1;
    }
    proof {
        assert forall|i: int| 0 <= i < given.len() implies #[trigger] config_models(parsed@)[i]
            == parsed_models(given)[i] by {
            assert(given[i] is Some);
        }
        assert(config_models(parsed@) =~= parsed_models(given));
    }
    let cpuid_modifiers = match intersect_cpuid_modifiers(&parsed) {
        Ok(v) => v,
        Err(e) => {
            return Err(e);
        },
    };
    let msr_modifiers = match intersect_msr_modifiers(&parsed) {
        Ok(v) => v,
        Err(e) => {
            return Err(e);
        },
    };
    let kvm_capabilities = intersect_kvm_capabilities(&parsed);
    Ok(Some(CpuConfig { kvm_capabilities, cpuid_modifiers, msr_modifiers }))
}

/// Intersects configs and writes the result as JSON: retains only shared entries and ANDs their
/// bitmaps.
///
/// A `None` stands for a config whose text did not parse. Without configs the text is empty.
pub fn intersect_cpu_configs(configs: &Vec<Option<CpuConfig>>) -> (r: Result<
    String,
    CpuTemplateError,
>)
    ensures
        configs@.len() == 0 ==> (r matches Ok(text) && text@.len() == 0),
        configs@.len() > 0 ==> match r {
            Ok(text) => intersection_fault(configs@) is None && exists|c: ConfigModel| #[trigger]
                is_intersection(parsed_models(configs@), c) && text@ == config_json(c),
            Err(e) => intersection_fault(configs@) == Some(e),
        },
{
    match intersect_parsed_configs(configs) {
        Ok(None) => Ok(String::new()),
        Ok(Some(c)) => {
            assert(is_intersection(parsed_models(configs@), c@));
            Ok(render_config(&c))
        },
        Err(e) => Err(e),
    }
}

/// What an error says, in the configs that it is about; nothing where they have no such place.
pub open spec fn error_text(e: CpuTemplateError, configs: Seq<Option<CpuConfig>>) -> Option<
    Seq<char>,
> {
    match e {
        CpuTemplateError::ParseConfig { config } => Some(
            "parse config "@ + decimal_text(config as nat),
        ),
        CpuTemplateError::CpuidLeaf { config, modifier } => cpuid_text(config, modifier, configs),
        CpuTemplateError::CpuidSubleaf { config, modifier } => cpuid_text(
            config,
            modifier,
            configs,
        ),
        CpuTemplateError::CpuidBitmap { config, modifier, register } => if has_cpuid(
            config,
            modifier,
            configs,
        ) && register < configs[config as int]->0@.cpuid_modifiers[modifier as int].modifiers.len() {
            let m = configs[config as int]->0@.cpuid_modifiers[modifier as int];
            Some(
                "config "@ + decimal_text(config as nat) + " cpuid "@ + m.leaf + " "@
                    + m.modifiers[register as int].register + " bitmap"@,
            )
        } else {
            None
        },
        CpuTemplateError::MsrAddr { config, modifier } => if has_msr(config, modifier, configs) {
            Some(
                "config "@ + decimal_text(config as nat) + " msr addr "@ + quoted_text(
                    configs[config as int]->0@.msr_modifiers[modifier as int].addr,
                ),
            )
        } else {
            None
        },
        CpuTemplateError::MsrBitmap { config, modifier } => if has_msr(config, modifier, configs) {
            Some(
                "config "@ + decimal_text(config as nat) + " msr "@
                    + configs[config as int]->0@.msr_modifiers[modifier as int].addr + " bitmap"@,
            )
        } else {
            None
        },
    }
}

/// Whether a config has this CPUID modifier.
pub open spec fn has_cpuid(config: usize, modifier: usize, configs: Seq<Option<CpuConfig>>) -> bool {
    config < configs.len() && configs[config as int] is Some && modifier
        < configs[config as int]->0@.cpuid_modifiers.len()
}

/// Whether a config has this MSR modifier.
pub open spec fn has_msr(config: usize, modifier: usize, configs: Seq<Option<CpuConfig>>) -> bool {
    config < configs.len() && configs[config as int] is Some && modifier
        < configs[config as int]->0@.msr_modifiers.len()
}

/// What is said of a CPUID modifier whose leaf or subleaf does not parse.
pub open spec fn cpuid_text(config: usize, modifier: usize, configs: Seq<Option<CpuConfig>>) -> Option<
    Seq<char>,
> {
    if has_cpuid(config, modifier, configs) {
        let m = configs[config as int]->0@.cpuid_modifiers[modifier as int];
        Some(
            "config "@ + decimal_text(config as nat) + " cpuid "@ + m.leaf + "/"@ + m.subleaf,
        )
    } else {
        None
    }
}

fn cpuid_at(configs: &Vec<Option<CpuConfig>>, config: usize, modifier: usize) -> (r: Option<
    &CpuidModifier,
>)
    ensures
        match r {
            Some(m) => has_cpuid(config, modifier, configs@) && m@
                == configs@[config as int]->0@.cpuid_modifiers[modifier as int],
            None => !has_cpuid(config, modifier, configs@),
        },
{
    if config >= configs.len() {
        return None;
    }
    match &configs[config] {
        Some(c) => if modifier < c.cpuid_modifiers.len() {
            Some(&c.cpuid_modifiers[modifier])
        } else {
            None
        },
        None => None,
    }
}

fn msr_at(configs: &Vec<Option<CpuConfig>>, config: usize, modifier: usize) -> (r: Option<
    &MsrModifier,
>)
    ensures
        match r {
            Some(m) => has_msr(config, modifier, configs@) && m@
                == configs@[config as int]->0@.msr_modifiers[modifier as int],
            None => !has_msr(config, modifier, configs@),
        },
{
    if config >= configs.len() {
        return None;
    }
    match &configs[config] {
        Some(c) => if modifier < c.msr_modifiers.len() {
            Some(&c.msr_modifiers[modifier])
        } else {
            None
        },
        None => None,
    }
}

fn about_config(config: usize, what: &str) -> (r: String)
    ensures
        r@ == "config "@ + decimal_text(config as nat) + what@,
{
    let mut out = "config ".to_owned();
    out.append(decimal(config as u64).as_str());
    out.append(what);
    out
}

impl CpuTemplateError {
    /// What the error says, in the configs that it is about.
    pub fn message(&self, configs: &Vec<Option<CpuConfig>>) -> (r: Option<String>)
        ensures
            match r {
                Some(text) => error_text(*self, configs@) == Some(text@),
                None => error_text(*self, configs@) is None,
            },
    {
        match *self {
            CpuTemplateError::ParseConfig { config } => {
                let mut out = "parse config ".to_owned();
                out.append(decimal(config as u64).as_str());
                Some(out)
            },
            CpuTemplateError::CpuidLeaf { config, modifier } | CpuTemplateError::CpuidSubleaf {
                config,
                modifier,
            } => match cpuid_at(configs, config, modifier) {
                Some(m) => {
                    let mut out = about_config(config, " cpuid ");
                    out.append(m.leaf.as_str());
                    out.append("/");
                    out.append(m.subleaf.as_str());
                    Some(out)
                },
                None => None,
            },
            CpuTemplateError::CpuidBitmap { config, modifier, register } => match cpuid_at(
                configs,
                config,
                modifier,
            ) {
                Some(m) => if register < m.modifiers.len() {
                    let mut out = about_config(config, " cpuid ");
                    out.append(m.leaf.as_str());
                    out.append(" ");
                    out.append(m.modifiers[register].register.as_str());
                    out.append(" bitmap");
                    Some(out)
                } else {
                    None
                },
                None => None,
            },
            CpuTemplateError::MsrAddr { config, modifier } => match msr_at(
                configs,
                config,
                modifier,
            ) {
                Some(m) => {
                    let mut out = about_config(config, " msr addr ");
                    out.append(quoted(m.addr.as_str()).as_str());
                    Some(out)
                },
                None => None,
            },
            CpuTemplateError::MsrBitmap { config, modifier } => match msr_at(
                configs,
                config,
                modifier,
            ) {
                Some(m) => {
                    let mut out = about_config(config, " msr ");
                    out.append(m.addr.as_str());
                    out.append(" bitmap");
                    Some(out)
                },
                None => None,
            },
        }
    }
}

} // verus!
