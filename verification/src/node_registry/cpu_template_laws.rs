//! Laws of the CPU-config intersection: what it promises of any configs.

use crate::node_registry::cpu_template::{
    ConfigModel, CpuConfig, CpuTemplateError, CpuidLeafKey, CpuidModel, MsrModel, RegisterModel,
    bitmap_round_trips_u32, bitmap_round_trips_u64, bitmap_text, bitmap_u32, bitmap_u64,
    capability_everywhere, cpuid_fault, error_text, has_cpuid, has_leaf, has_msr, hex_u32,
    increasing, intersection_fault, is_intersection, leaf_key, leaf_register,
    leaf_registers, leaf_survives, modifier_fault, modifiers_fault, msr_and, msr_bits, msr_entry, msr_fault,
    msr_survives, msrs_fault, parse_fault, parsed_models, register_and, register_bits,
    register_entry, register_fault, register_survives, shared_leaves, shared_msrs,
    shared_registers,
};
use crate::node_registry::cpu_template_json::config_json;
use crate::text::{
    decimal_text, quoted_text, text_before, text_order_is_irreflexive, text_order_is_transitive,
};
use vstd::prelude::*;

verus! {

/// `bits` sets no bit outside `mask`.
pub open spec fn within_u32(bits: u32, mask: u32) -> bool {
    bits & mask == bits
}

/// `bits` sets no bit outside `mask`.
pub open spec fn within_u64(bits: u64, mask: u64) -> bool {
    bits & mask == bits
}

proof fn register_and_is_greatest(
    configs: Seq<ConfigModel>,
    key: CpuidLeafKey,
    register: Seq<char>,
    k: int,
    y: u32,
)
    requires
        0 <= k <= configs.len(),
        forall|c: int|
            0 <= c < configs.len() ==> register_bits(#[trigger] configs[c], key, register) is Some,
    ensures
        within_u32(y, register_and(configs, key, register, k)) <==> forall|c: int|
            0 <= c < k ==> within_u32(y, register_bits(#[trigger] configs[c], key, register)->0),
    decreases k,
{
    if k == 0 {
        assert(y & 0xffff_ffffu32 == y) by (bit_vector);
    } else {
        register_and_is_greatest(configs, key, register, k - 1, y);
        let a = register_and(configs, key, register, k - 1);
        let v = register_bits(configs[k - 1], key, register)->0;
        assert((y & (a & v) == y) <==> (y & a == y && y & v == y)) by (bit_vector);
    }
}

proof fn msr_and_is_greatest(configs: Seq<ConfigModel>, addr: u32, k: int, y: u64)
    requires
        0 <= k <= configs.len(),
        forall|c: int| 0 <= c < configs.len() ==> msr_bits(#[trigger] configs[c], addr) is Some,
    ensures
        within_u64(y, msr_and(configs, addr, k)) <==> forall|c: int|
            0 <= c < k ==> within_u64(y, msr_bits(#[trigger] configs[c], addr)->0),
    decreases k,
{
    if k == 0 {
        assert(y & 0xffff_ffff_ffff_ffffu64 == y) by (bit_vector);
    } else {
        msr_and_is_greatest(configs, addr, k - 1, y);
        let a = msr_and(configs, addr, k - 1);
        let v = msr_bits(configs[k - 1], addr)->0;
        assert((y & (a & v) == y) <==> (y & a == y && y & v == y)) by (bit_vector);
    }
}

/// The register entry `r` of the leaf `key` is in every config and sets no bit that one of them
/// leaves clear.
pub open spec fn register_is_shared(
    configs: Seq<ConfigModel>,
    key: CpuidLeafKey,
    r: RegisterModel,
) -> bool {
    &&& bitmap_u32(r.bitmap) is Some
    &&& forall|c: int|
        0 <= c < configs.len() ==> register_bits(#[trigger] configs[c], key, r.register) is Some
            && within_u32(
            bitmap_u32(r.bitmap)->0,
            register_bits(configs[c], key, r.register)->0,
        )
}

/// The leaf `m` is one that KVM lets be overridden, is in every config, and holds at least one
/// register, each of them shared.
pub open spec fn leaf_is_shared(configs: Seq<ConfigModel>, m: CpuidModel) -> bool {
    &&& leaf_key(m) is Some
    &&& (leaf_key(m)->0).leaf != 0xb
    &&& m.modifiers.len() > 0
    &&& forall|c: int| 0 <= c < configs.len() ==> has_leaf(#[trigger] configs[c], leaf_key(m)->0)
    &&& forall|i: int|
        0 <= i < m.modifiers.len() ==> register_is_shared(
            configs,
            leaf_key(m)->0,
            #[trigger] m.modifiers[i],
        )
}

/// The MSR entry `m` is in every config and sets no bit that one of them leaves clear.
pub open spec fn msr_is_shared(configs: Seq<ConfigModel>, m: MsrModel) -> bool {
    &&& hex_u32(m.addr) is Some
    &&& bitmap_u64(m.bitmap) is Some
    &&& forall|c: int|
        0 <= c < configs.len() ==> msr_bits(#[trigger] configs[c], hex_u32(m.addr)->0) is Some
            && within_u64(bitmap_u64(m.bitmap)->0, msr_bits(configs[c], hex_u32(m.addr)->0)->0)
}

proof fn shared_registers_are_shared(
    configs: Seq<ConfigModel>,
    key: CpuidLeafKey,
    registers: Seq<RegisterModel>,
    k: int,
)
    requires
        0 <= k <= registers.len(),
    ensures
        forall|i: int|
            0 <= i < shared_registers(configs, key, registers, k).len() ==> register_is_shared(
                configs,
                key,
                #[trigger] shared_registers(configs, key, registers, k)[i],
            ),
    decreases k,
{
    if k > 0 {
        shared_registers_are_shared(configs, key, registers, k - 1);
        if register_survives(configs, key, registers, k - 1) {
            let name = registers[k - 1].register;
            let v = register_and(configs, key, name, configs.len() as int);
            bitmap_round_trips_u32(v, 32);
            assert(v & v == v) by (bit_vector);
            register_and_is_greatest(configs, key, name, configs.len() as int, v);
        }
        let rest = shared_registers(configs, key, registers, k - 1);
        let all = shared_registers(configs, key, registers, k);
        assert forall|i: int| 0 <= i < all.len() implies register_is_shared(
            configs,
            key,
            #[trigger] all[i],
        ) by {
            if i < rest.len() {
                assert(all[i] == rest[i]);
                assert(register_is_shared(configs, key, rest[i]));
            } else {
                assert(register_survives(configs, key, registers, k - 1));
                assert(all[i].register == registers[k - 1].register);
            }
        }
    }
}

proof fn shared_leaves_are_shared(configs: Seq<ConfigModel>, k: int)
    requires
        configs.len() > 0,
        0 <= k <= configs[0].cpuid_modifiers.len(),
    ensures
        forall|i: int|
            0 <= i < shared_leaves(configs, k).len() ==> leaf_is_shared(
                configs,
                #[trigger] shared_leaves(configs, k)[i],
            ),
    decreases k,
{
    if k > 0 {
        shared_leaves_are_shared(configs, k - 1);
        let m = configs[0].cpuid_modifiers[k - 1];
        if leaf_survives(configs, k - 1) {
            shared_registers_are_shared(
                configs,
                leaf_key(m)->0,
                m.modifiers,
                m.modifiers.len() as int,
            );
        }
        let rest = shared_leaves(configs, k - 1);
        let all = shared_leaves(configs, k);
        assert forall|i: int| 0 <= i < all.len() implies leaf_is_shared(
            configs,
            #[trigger] all[i],
        ) by {
            if i < rest.len() {
                assert(all[i] == rest[i]);
                assert(leaf_is_shared(configs, rest[i]));
            } else {
                assert(leaf_survives(configs, k - 1));
                assert(leaf_key(all[i]) == leaf_key(m));
                assert(all[i].modifiers == leaf_registers(configs, k - 1));
            }
        }
    }
}

proof fn shared_msrs_are_shared(configs: Seq<ConfigModel>, k: int)
    requires
        configs.len() > 0,
        0 <= k <= configs[0].msr_modifiers.len(),
    ensures
        forall|i: int|
            0 <= i < shared_msrs(configs, k).len() ==> msr_is_shared(
                configs,
                #[trigger] shared_msrs(configs, k)[i],
            ),
    decreases k,
{
    if k > 0 {
        shared_msrs_are_shared(configs, k - 1);
        if msr_survives(configs, k - 1) {
            let addr = hex_u32(configs[0].msr_modifiers[k - 1].addr)->0;
            let v = msr_and(configs, addr, configs.len() as int);
            bitmap_round_trips_u64(v, 64);
            assert(v & v == v) by (bit_vector);
            msr_and_is_greatest(configs, addr, configs.len() as int, v);
        }
        let rest = shared_msrs(configs, k - 1);
        let all = shared_msrs(configs, k);
        assert forall|i: int| 0 <= i < all.len() implies msr_is_shared(
            configs,
            #[trigger] all[i],
        ) by {
            if i < rest.len() {
                assert(all[i] == rest[i]);
                assert(msr_is_shared(configs, rest[i]));
            } else {
                assert(msr_survives(configs, k - 1));
                assert(all[i].addr == configs[0].msr_modifiers[k - 1].addr);
            }
        }
    }
}

/// The intersection never exceeds any config: what it lists every config has, no bit is set that
/// one of them leaves clear, and no leaf that KVM forbids to override is in it.
pub proof fn intersection_is_within_every_config(configs: Seq<ConfigModel>, r: ConfigModel)
    requires
        configs.len() > 0,
        is_intersection(configs, r),
    ensures
        forall|i: int|
            0 <= i < r.cpuid_modifiers.len() ==> leaf_is_shared(
                configs,
                #[trigger] r.cpuid_modifiers[i],
            ),
        forall|i: int|
            0 <= i < r.msr_modifiers.len() ==> msr_is_shared(configs, #[trigger] r.msr_modifiers[i]),
        forall|x: Seq<char>, c: int|
            0 <= c < configs.len() && r.kvm_capabilities.contains(x)
                ==> #[trigger] configs[c].kvm_capabilities.contains(x),
{
    shared_leaves_are_shared(configs, configs[0].cpuid_modifiers.len() as int);
    shared_msrs_are_shared(configs, configs[0].msr_modifiers.len() as int);
    assert forall|x: Seq<char>, c: int|
        0 <= c < configs.len() && r.kvm_capabilities.contains(
            x,
        ) implies #[trigger] configs[c].kvm_capabilities.contains(x) by {
        assert(capability_everywhere(configs, x));
    }
}

/// An increasing list is determined by what it contains.
pub proof fn increasing_lists_are_unique(a: Seq<Seq<char>>, b: Seq<Seq<char>>)
    requires
        increasing(a),
        increasing(b),
        forall|x: Seq<char>| a.contains(x) <==> b.contains(x),
    ensures
        a == b,
    decreases a.len(),
{
    if a.len() == 0 {
        if b.len() > 0 {
            assert(b.contains(b[0]));
            assert(a.contains(b[0]));
        }
        assert(a =~= b);
    } else {
        assert(a.contains(a.last()));
        assert(b.contains(a.last()));
        let j = choose|j: int| 0 <= j < b.len() && b[j] == a.last();
        assert(b.contains(b.last()));
        assert(a.contains(b.last()));
        let i = choose|i: int| 0 <= i < a.len() && a[i] == b.last();
        if a.last() != b.last() {
            assert(text_before(a[i], a[a.len() - 1]));
            assert(text_before(b[j], b[b.len() - 1]));
            text_order_is_transitive(a.last(), b.last(), a.last());
            text_order_is_irreflexive(a.last());
        }
        let a1 = a.drop_last();
        let b1 = b.drop_last();
        assert forall|x: Seq<char>| a1.contains(x) <==> b1.contains(x) by {
            text_order_is_irreflexive(a.last());
            if a1.contains(x) {
                let p = choose|p: int| 0 <= p < a1.len() && a1[p] == x;
                assert(a[p] == x);
                assert(a.contains(x));
                assert(text_before(a[p], a[a.len() - 1]));
                let q = choose|q: int| 0 <= q < b.len() && b[q] == x;
                assert(b1[q] == x);
            }
            if b1.contains(x) {
                let p = choose|p: int| 0 <= p < b1.len() && b1[p] == x;
                assert(b[p] == x);
                assert(b.contains(x));
                assert(text_before(b[p], b[b.len() - 1]));
                let q = choose|q: int| 0 <= q < a.len() && a[q] == x;
                assert(a1[q] == x);
            }
        }
        increasing_lists_are_unique(a1, b1);
        assert(a =~= a1.push(a.last()));
        assert(b =~= b1.push(b.last()));
    }
}

/// The configs have exactly one intersection.
pub proof fn intersection_is_unique(configs: Seq<ConfigModel>, r1: ConfigModel, r2: ConfigModel)
    requires
        is_intersection(configs, r1),
        is_intersection(configs, r2),
    ensures
        r1 == r2,
{
    assert forall|x: Seq<char>| r1.kvm_capabilities.contains(x) <==> r2.kvm_capabilities.contains(
        x,
    ) by {}
    increasing_lists_are_unique(r1.kvm_capabilities, r2.kvm_capabilities);
}

/// Both lists hold the same configs, in any order and number.
pub open spec fn same_configs(a: Seq<ConfigModel>, b: Seq<ConfigModel>) -> bool {
    &&& forall|i: int| 0 <= i < a.len() ==> b.contains(#[trigger] a[i])
    &&& forall|i: int| 0 <= i < b.len() ==> a.contains(#[trigger] b[i])
}

proof fn register_and_ignores_order(
    a: Seq<ConfigModel>,
    b: Seq<ConfigModel>,
    key: CpuidLeafKey,
    register: Seq<char>,
)
    requires
        same_configs(a, b),
        forall|c: int| 0 <= c < a.len() ==> register_bits(#[trigger] a[c], key, register) is Some,
    ensures
        forall|c: int| 0 <= c < b.len() ==> register_bits(#[trigger] b[c], key, register) is Some,
        register_and(a, key, register, a.len() as int) == register_and(
            b,
            key,
            register,
            b.len() as int,
        ),
{
    assert forall|c: int| 0 <= c < b.len() implies register_bits(
        #[trigger] b[c],
        key,
        register,
    ) is Some by {
        let i = choose|i: int| 0 <= i < a.len() && a[i] == b[c];
        assert(register_bits(a[i], key, register) is Some);
    }
    let x = register_and(a, key, register, a.len() as int);
    let y = register_and(b, key, register, b.len() as int);
    assert(x & x == x) by (bit_vector);
    assert(y & y == y) by (bit_vector);
    register_and_is_greatest(a, key, register, a.len() as int, x);
    register_and_is_greatest(b, key, register, b.len() as int, y);
    register_and_is_greatest(a, key, register, a.len() as int, y);
    register_and_is_greatest(b, key, register, b.len() as int, x);
    assert forall|c: int| 0 <= c < a.len() implies within_u32(
        y,
        register_bits(#[trigger] a[c], key, register)->0,
    ) by {
        let i = choose|i: int| 0 <= i < b.len() && b[i] == a[c];
        assert(within_u32(y, register_bits(b[i], key, register)->0));
    }
    assert forall|c: int| 0 <= c < b.len() implies within_u32(
        x,
        register_bits(#[trigger] b[c], key, register)->0,
    ) by {
        let i = choose|i: int| 0 <= i < a.len() && a[i] == b[c];
        assert(within_u32(x, register_bits(a[i], key, register)->0));
    }
    assert(x & y == x && y & x == y ==> x == y) by (bit_vector);
}

proof fn msr_and_ignores_order(a: Seq<ConfigModel>, b: Seq<ConfigModel>, addr: u32)
    requires
        same_configs(a, b),
        forall|c: int| 0 <= c < a.len() ==> msr_bits(#[trigger] a[c], addr) is Some,
    ensures
        forall|c: int| 0 <= c < b.len() ==> msr_bits(#[trigger] b[c], addr) is Some,
        msr_and(a, addr, a.len() as int) == msr_and(b, addr, b.len() as int),
{
    assert forall|c: int| 0 <= c < b.len() implies msr_bits(#[trigger] b[c], addr) is Some by {
        let i = choose|i: int| 0 <= i < a.len() && a[i] == b[c];
        assert(msr_bits(a[i], addr) is Some);
    }
    let x = msr_and(a, addr, a.len() as int);
    let y = msr_and(b, addr, b.len() as int);
    assert(x & x == x) by (bit_vector);
    assert(y & y == y) by (bit_vector);
    msr_and_is_greatest(a, addr, a.len() as int, x);
    msr_and_is_greatest(b, addr, b.len() as int, y);
    msr_and_is_greatest(a, addr, a.len() as int, y);
    msr_and_is_greatest(b, addr, b.len() as int, x);
    assert forall|c: int| 0 <= c < a.len() implies within_u64(
        y,
        msr_bits(#[trigger] a[c], addr)->0,
    ) by {
        let i = choose|i: int| 0 <= i < b.len() && b[i] == a[c];
        assert(within_u64(y, msr_bits(b[i], addr)->0));
    }
    assert forall|c: int| 0 <= c < b.len() implies within_u64(
        x,
        msr_bits(#[trigger] b[c], addr)->0,
    ) by {
        let i = choose|i: int| 0 <= i < a.len() && a[i] == b[c];
        assert(within_u64(x, msr_bits(a[i], addr)->0));
    }
    assert(x & y == x && y & x == y ==> x == y) by (bit_vector);
}

proof fn shared_registers_ignore_order(
    a: Seq<ConfigModel>,
    b: Seq<ConfigModel>,
    key: CpuidLeafKey,
    registers: Seq<RegisterModel>,
    k: int,
)
    requires
        same_configs(a, b),
        0 <= k <= registers.len(),
    ensures
        shared_registers(a, key, registers, k) == shared_registers(b, key, registers, k),
    decreases k,
{
    if k > 0 {
        shared_registers_ignore_order(a, b, key, registers, k - 1);
        if register_survives(a, key, registers, k - 1) {
            register_and_ignores_order(a, b, key, registers[k - 1].register);
        }
        if register_survives(b, key, registers, k - 1) {
            register_and_ignores_order(b, a, key, registers[k - 1].register);
        }
    }
}

proof fn has_leaf_ignores_order(a: Seq<ConfigModel>, b: Seq<ConfigModel>, key: CpuidLeafKey)
    requires
        same_configs(a, b),
        forall|c: int| 0 <= c < a.len() ==> has_leaf(#[trigger] a[c], key),
    ensures
        forall|c: int| 0 <= c < b.len() ==> has_leaf(#[trigger] b[c], key),
{
    assert forall|c: int| 0 <= c < b.len() implies has_leaf(#[trigger] b[c], key) by {
        let i = choose|i: int| 0 <= i < a.len() && a[i] == b[c];
        assert(has_leaf(a[i], key));
    }
}

proof fn shared_leaves_ignore_order(a: Seq<ConfigModel>, b: Seq<ConfigModel>, k: int)
    requires
        same_configs(a, b),
        a.len() > 0,
        b.len() > 0,
        a[0] == b[0],
        0 <= k <= a[0].cpuid_modifiers.len(),
    ensures
        shared_leaves(a, k) == shared_leaves(b, k),
    decreases k,
{
    if k > 0 {
        shared_leaves_ignore_order(a, b, k - 1);
        let m = a[0].cpuid_modifiers[k - 1];
        if leaf_survives(a, k - 1) {
            has_leaf_ignores_order(a, b, leaf_key(m)->0);
        }
        if leaf_survives(b, k - 1) {
            has_leaf_ignores_order(b, a, leaf_key(m)->0);
        }
        assert(leaf_survives(a, k - 1) == leaf_survives(b, k - 1));
        if leaf_survives(a, k - 1) {
            shared_registers_ignore_order(
                a,
                b,
                leaf_key(m)->0,
                m.modifiers,
                m.modifiers.len() as int,
            );
        }
    }
}

proof fn shared_msrs_ignore_order(a: Seq<ConfigModel>, b: Seq<ConfigModel>, k: int)
    requires
        same_configs(a, b),
        a.len() > 0,
        b.len() > 0,
        a[0] == b[0],
        0 <= k <= a[0].msr_modifiers.len(),
    ensures
        shared_msrs(a, k) == shared_msrs(b, k),
    decreases k,
{
    if k > 0 {
        shared_msrs_ignore_order(a, b, k - 1);
        let addr = hex_u32(a[0].msr_modifiers[k - 1].addr)->0;
        if msr_survives(a, k - 1) {
            msr_and_ignores_order(a, b, addr);
        }
        if msr_survives(b, k - 1) {
            msr_and_ignores_order(b, a, addr);
        }
    }
}

/// Which configs there are decides the intersection, and which one comes first its order and
/// spelling: the order and number of the others do not matter.
pub proof fn intersection_ignores_order_after_the_first(
    a: Seq<ConfigModel>,
    b: Seq<ConfigModel>,
    r: ConfigModel,
)
    requires
        a.len() > 0,
        b.len() > 0,
        a[0] == b[0],
        same_configs(a, b),
        is_intersection(a, r),
    ensures
        is_intersection(b, r),
{
    shared_leaves_ignore_order(a, b, a[0].cpuid_modifiers.len() as int);
    shared_msrs_ignore_order(a, b, a[0].msr_modifiers.len() as int);
    assert forall|x: Seq<char>| #[trigger]
        r.kvm_capabilities.contains(x) <==> capability_everywhere(b, x) by {
        if capability_everywhere(a, x) {
            assert forall|c: int| 0 <= c < b.len() implies (
            #[trigger] b[c]).kvm_capabilities.contains(x) by {
                let i = choose|i: int| 0 <= i < a.len() && a[i] == b[c];
                assert(a[i].kvm_capabilities.contains(x));
            }
        }
        if capability_everywhere(b, x) {
            assert forall|c: int| 0 <= c < a.len() implies (
            #[trigger] a[c]).kvm_capabilities.contains(x) by {
                let i = choose|i: int| 0 <= i < b.len() && b[i] == a[c];
                assert(b[i].kvm_capabilities.contains(x));
            }
        }
    }
}

/// A config in the form that the intersection writes: capabilities in increasing order, no leaf,
/// register or address twice, no leaf that is read-only or without registers, and every bitmap
/// zero-padded to its full width.
pub open spec fn is_canonical(c: ConfigModel) -> bool {
    &&& increasing(c.kvm_capabilities)
    &&& forall|j: int|
        0 <= j < c.cpuid_modifiers.len() ==> canonical_leaf(#[trigger] c.cpuid_modifiers[j])
    &&& forall|i: int, j: int|
        0 <= i < j < c.cpuid_modifiers.len() ==> leaf_key(#[trigger] c.cpuid_modifiers[i])
            != leaf_key(#[trigger] c.cpuid_modifiers[j])
    &&& forall|j: int|
        0 <= j < c.msr_modifiers.len() ==> canonical_msr(#[trigger] c.msr_modifiers[j])
    &&& forall|i: int, j: int|
        0 <= i < j < c.msr_modifiers.len() ==> hex_u32((#[trigger] c.msr_modifiers[i]).addr)
            != hex_u32((#[trigger] c.msr_modifiers[j]).addr)
}

/// See [`is_canonical`].
pub open spec fn canonical_leaf(m: CpuidModel) -> bool {
    &&& leaf_key(m) is Some
    &&& (leaf_key(m)->0).leaf != 0xb
    &&& m.modifiers.len() > 0
    &&& forall|i: int|
        0 <= i < m.modifiers.len() ==> bitmap_u32((#[trigger] m.modifiers[i]).bitmap) is Some
            && m.modifiers[i].bitmap == bitmap_text(
            bitmap_u32(m.modifiers[i].bitmap)->0 as nat,
            32,
        )
    &&& forall|i: int, j: int|
        0 <= i < j < m.modifiers.len() ==> (#[trigger] m.modifiers[i]).register != (
        #[trigger] m.modifiers[j]).register
}

/// See [`is_canonical`].
pub open spec fn canonical_msr(m: MsrModel) -> bool {
    &&& hex_u32(m.addr) is Some
    &&& bitmap_u64(m.bitmap) is Some
    &&& m.bitmap == bitmap_text(bitmap_u64(m.bitmap)->0 as nat, 64)
}

proof fn canonical_register_entry(m: CpuidModel, i: int, k: int)
    requires
        canonical_leaf(m),
        0 <= i < k <= m.modifiers.len(),
    ensures
        register_entry(m.modifiers, m.modifiers[i].register, k) == bitmap_u32(
            m.modifiers[i].bitmap,
        ),
    decreases k,
{
    if i < k - 1 {
        assert(m.modifiers[i].register != m.modifiers[k - 1].register);
        canonical_register_entry(m, i, k - 1);
    }
}

proof fn canonical_leaf_register(c: ConfigModel, j: int, i: int, k: int)
    requires
        is_canonical(c),
        0 <= j < k <= c.cpuid_modifiers.len(),
        0 <= i < c.cpuid_modifiers[j].modifiers.len(),
    ensures
        leaf_register(
            c.cpuid_modifiers,
            leaf_key(c.cpuid_modifiers[j])->0,
            c.cpuid_modifiers[j].modifiers[i].register,
            k,
        ) == bitmap_u32(c.cpuid_modifiers[j].modifiers[i].bitmap),
    decreases k,
{
    let m = c.cpuid_modifiers[j];
    assert(canonical_leaf(m));
    if j == k - 1 {
        canonical_register_entry(m, i, m.modifiers.len() as int);
    } else {
        assert(leaf_key(c.cpuid_modifiers[j]) != leaf_key(c.cpuid_modifiers[k - 1]));
        canonical_leaf_register(c, j, i, k - 1);
    }
}

proof fn canonical_msr_entry(c: ConfigModel, j: int, k: int)
    requires
        is_canonical(c),
        0 <= j < k <= c.msr_modifiers.len(),
    ensures
        msr_entry(c.msr_modifiers, hex_u32(c.msr_modifiers[j].addr)->0, k) == bitmap_u64(
            c.msr_modifiers[j].bitmap,
        ),
    decreases k,
{
    assert(canonical_msr(c.msr_modifiers[j]));
    if j < k - 1 {
        assert(hex_u32(c.msr_modifiers[j].addr) != hex_u32(c.msr_modifiers[k - 1].addr));
        canonical_msr_entry(c, j, k - 1);
    }
}

proof fn copies_keep_registers(
    configs: Seq<ConfigModel>,
    c: ConfigModel,
    j: int,
    k: int,
)
    requires
        is_canonical(c),
        configs.len() > 0,
        forall|i: int| 0 <= i < configs.len() ==> #[trigger] configs[i] == c,
        0 <= j < c.cpuid_modifiers.len(),
        0 <= k <= c.cpuid_modifiers[j].modifiers.len(),
    ensures
        shared_registers(
            configs,
            leaf_key(c.cpuid_modifiers[j])->0,
            c.cpuid_modifiers[j].modifiers,
            k,
        ) == c.cpuid_modifiers[j].modifiers.take(k),
    decreases k,
{
    let m = c.cpuid_modifiers[j];
    let key = leaf_key(m)->0;
    assert(canonical_leaf(m));
    if k == 0 {
        assert(m.modifiers.take(0) =~= Seq::<RegisterModel>::empty());
    } else {
        copies_keep_registers(configs, c, j, k - 1);
        canonical_leaf_register(c, j, k - 1, c.cpuid_modifiers.len() as int);
        let name = m.modifiers[k - 1].register;
        let v = bitmap_u32(m.modifiers[k - 1].bitmap)->0;
        assert(register_survives(configs, key, m.modifiers, k - 1));
        let all = register_and(configs, key, name, configs.len() as int);
        assert(v & v == v) by (bit_vector);
        assert(all & all == all) by (bit_vector);
        register_and_is_greatest(configs, key, name, configs.len() as int, v);
        register_and_is_greatest(configs, key, name, configs.len() as int, all);
        assert(within_u32(all, register_bits(configs[0], key, name)->0));
        assert(v & all == v && all & v == all ==> v == all) by (bit_vector);
        assert(m.modifiers.take(k) =~= m.modifiers.take(k - 1).push(m.modifiers[k - 1]));
    }
}

proof fn copies_keep_leaves(configs: Seq<ConfigModel>, c: ConfigModel, k: int)
    requires
        is_canonical(c),
        configs.len() > 0,
        forall|i: int| 0 <= i < configs.len() ==> #[trigger] configs[i] == c,
        0 <= k <= c.cpuid_modifiers.len(),
    ensures
        shared_leaves(configs, k) == c.cpuid_modifiers.take(k),
    decreases k,
{
    assert(configs[0] == c);
    if k == 0 {
        assert(c.cpuid_modifiers.take(0) =~= Seq::<CpuidModel>::empty());
    } else {
        copies_keep_leaves(configs, c, k - 1);
        let m = c.cpuid_modifiers[k - 1];
        assert(canonical_leaf(m));
        copies_keep_registers(configs, c, k - 1, m.modifiers.len() as int);
        assert(m.modifiers.take(m.modifiers.len() as int) =~= m.modifiers);
        assert(has_leaf(c, leaf_key(m)->0));
        assert(leaf_survives(configs, k - 1));
        assert(c.cpuid_modifiers.take(k) =~= c.cpuid_modifiers.take(k - 1).push(m));
    }
}

proof fn copies_keep_msrs(configs: Seq<ConfigModel>, c: ConfigModel, k: int)
    requires
        is_canonical(c),
        configs.len() > 0,
        forall|i: int| 0 <= i < configs.len() ==> #[trigger] configs[i] == c,
        0 <= k <= c.msr_modifiers.len(),
    ensures
        shared_msrs(configs, k) == c.msr_modifiers.take(k),
    decreases k,
{
    assert(configs[0] == c);
    if k == 0 {
        assert(c.msr_modifiers.take(0) =~= Seq::<MsrModel>::empty());
    } else {
        copies_keep_msrs(configs, c, k - 1);
        let m = c.msr_modifiers[k - 1];
        assert(canonical_msr(m));
        let addr = hex_u32(m.addr)->0;
        let v = bitmap_u64(m.bitmap)->0;
        canonical_msr_entry(c, k - 1, c.msr_modifiers.len() as int);
        assert(msr_survives(configs, k - 1));
        let all = msr_and(configs, addr, configs.len() as int);
        assert(v & v == v) by (bit_vector);
        assert(all & all == all) by (bit_vector);
        msr_and_is_greatest(configs, addr, configs.len() as int, v);
        msr_and_is_greatest(configs, addr, configs.len() as int, all);
        assert(within_u64(all, msr_bits(configs[0], addr)->0));
        assert(v & all == v && all & v == all ==> v == all) by (bit_vector);
        assert(c.msr_modifiers.take(k) =~= c.msr_modifiers.take(k - 1).push(m));
    }
}

/// Identical configs in canonical form are unchanged, however many there are.
pub proof fn identical_configs_are_their_intersection(configs: Seq<ConfigModel>, c: ConfigModel)
    requires
        is_canonical(c),
        configs.len() > 0,
        forall|i: int| 0 <= i < configs.len() ==> #[trigger] configs[i] == c,
    ensures
        is_intersection(configs, c),
{
    assert(configs[0] == c);
    copies_keep_leaves(configs, c, c.cpuid_modifiers.len() as int);
    copies_keep_msrs(configs, c, c.msr_modifiers.len() as int);
    assert(c.cpuid_modifiers.take(c.cpuid_modifiers.len() as int) =~= c.cpuid_modifiers);
    assert(c.msr_modifiers.take(c.msr_modifiers.len() as int) =~= c.msr_modifiers);
    assert forall|x: Seq<char>| #[trigger]
        c.kvm_capabilities.contains(x) <==> capability_everywhere(configs, x) by {
        if capability_everywhere(configs, x) {
            assert(configs[0].kvm_capabilities.contains(x));
        }
    }
}

/// Every fault names a place that the configs have: its message can always be told.
pub proof fn faults_can_be_told(configs: Seq<Option<CpuConfig>>)
    requires
        configs.len() <= usize::MAX,
        intersection_fault(configs) is Some,
        forall|c: int|
            0 <= c < configs.len() && (#[trigger] configs[c]) is Some ==> counts_fit(configs[c]->0@),
    ensures
        error_text(intersection_fault(configs)->0, configs) is Some,
{
    let n = configs.len() as int;
    if parse_fault(configs, n) is Some {
        parse_faults_are_parse_errors(configs, n);
    } else {
        all_parsed_without_fault(configs, n);
        cpuid_faults_are_placed(configs, n);
        msr_faults_are_placed(configs, n);
    }
}

/// Whether every list of a config can be counted by a `usize`, as every list in memory can.
pub open spec fn counts_fit(c: ConfigModel) -> bool {
    &&& c.cpuid_modifiers.len() <= usize::MAX
    &&& c.msr_modifiers.len() <= usize::MAX
    &&& forall|j: int|
        0 <= j < c.cpuid_modifiers.len() ==> (#[trigger] c.cpuid_modifiers[j]).modifiers.len()
            <= usize::MAX
}

proof fn parse_faults_are_parse_errors(configs: Seq<Option<CpuConfig>>, k: int)
    ensures
        parse_fault(configs, k) matches Some(e) ==> e is ParseConfig,
    decreases k,
{
    if k > 0 {
        parse_faults_are_parse_errors(configs, k - 1);
    }
}

proof fn all_parsed_without_fault(configs: Seq<Option<CpuConfig>>, k: int)
    requires
        parse_fault(configs, k) is None,
        0 <= k <= configs.len(),
    ensures
        forall|c: int| 0 <= c < k ==> #[trigger] configs[c] is Some,
    decreases k,
{
    if k > 0 {
        all_parsed_without_fault(configs, k - 1);
    }
}

proof fn register_faults_are_placed(
    config: int,
    modifier: int,
    registers: Seq<RegisterModel>,
    k: int,
)
    requires
        0 <= k <= registers.len() <= usize::MAX,
        0 <= config <= usize::MAX,
        0 <= modifier <= usize::MAX,
    ensures
        register_fault(config, modifier, registers, k) matches Some(e) ==> (e matches
            CpuTemplateError::CpuidBitmap { config: c, modifier: m, register: r } && c == config && m
            == modifier && r < registers.len()),
    decreases k,
{
    if k > 0 {
        register_faults_are_placed(config, modifier, registers, k - 1);
    }
}

/// `e` is about a CPUID modifier of the configs.
spec fn is_placed_cpuid(e: CpuTemplateError, configs: Seq<Option<CpuConfig>>) -> bool {
    match e {
        CpuTemplateError::CpuidLeaf { config, modifier } => has_cpuid(config, modifier, configs),
        CpuTemplateError::CpuidSubleaf { config, modifier } => has_cpuid(config, modifier, configs),
        CpuTemplateError::CpuidBitmap { config, modifier, register } => has_cpuid(
            config,
            modifier,
            configs,
        ) && register < configs[config as int]->0@.cpuid_modifiers[modifier as int].modifiers.len(),
        _ => false,
    }
}

proof fn modifier_faults_are_placed(configs: Seq<Option<CpuConfig>>, c: int, k: int)
    requires
        0 <= c < configs.len() <= usize::MAX,
        configs[c] is Some,
        counts_fit(configs[c]->0@),
        0 <= k <= configs[c]->0@.cpuid_modifiers.len(),
    ensures
        modifiers_fault(c, configs[c]->0@.cpuid_modifiers, k) matches Some(e) ==> is_placed_cpuid(
            e,
            configs,
        ),
    decreases k,
{
    if k > 0 {
        modifier_faults_are_placed(configs, c, k - 1);
        let m = configs[c]->0@.cpuid_modifiers[k - 1];
        register_faults_are_placed(c, k - 1, m.modifiers, m.modifiers.len() as int);
    }
}

proof fn cpuid_faults_are_placed(configs: Seq<Option<CpuConfig>>, k: int)
    requires
        0 <= k <= configs.len() <= usize::MAX,
        forall|c: int| 0 <= c < configs.len() ==> #[trigger] configs[c] is Some,
        forall|c: int| 0 <= c < configs.len() ==> counts_fit((#[trigger] configs[c])->0@),
    ensures
        cpuid_fault(parsed_models(configs), k) matches Some(e) ==> is_placed_cpuid(e, configs),
    decreases k,
{
    if k > 0 {
        cpuid_faults_are_placed(configs, k - 1);
        assert(configs[k - 1] is Some);
        assert(counts_fit(configs[k - 1]->0@));
        modifier_faults_are_placed(
            configs,
            k - 1,
            configs[k - 1]->0@.cpuid_modifiers.len() as int,
        );
    }
}

/// `e` is about an MSR modifier of the configs.
spec fn is_placed_msr(e: CpuTemplateError, configs: Seq<Option<CpuConfig>>) -> bool {
    match e {
        CpuTemplateError::MsrAddr { config, modifier } => has_msr(config, modifier, configs),
        CpuTemplateError::MsrBitmap { config, modifier } => has_msr(config, modifier, configs),
        _ => false,
    }
}

proof fn msrs_faults_are_placed(configs: Seq<Option<CpuConfig>>, c: int, k: int)
    requires
        0 <= c < configs.len() <= usize::MAX,
        configs[c] is Some,
        counts_fit(configs[c]->0@),
        0 <= k <= configs[c]->0@.msr_modifiers.len(),
    ensures
        msrs_fault(c, configs[c]->0@.msr_modifiers, k) matches Some(e) ==> is_placed_msr(
            e,
            configs,
        ),
    decreases k,
{
    if k > 0 {
        msrs_faults_are_placed(configs, c, k - 1);
    }
}

proof fn msr_faults_are_placed(configs: Seq<Option<CpuConfig>>, k: int)
    requires
        0 <= k <= configs.len() <= usize::MAX,
        forall|c: int| 0 <= c < configs.len() ==> #[trigger] configs[c] is Some,
        forall|c: int| 0 <= c < configs.len() ==> counts_fit((#[trigger] configs[c])->0@),
    ensures
        msr_fault(parsed_models(configs), k) matches Some(e) ==> is_placed_msr(e, configs),
    decreases k,
{
    if k > 0 {
        msr_faults_are_placed(configs, k - 1);
        assert(configs[k - 1] is Some);
        assert(counts_fit(configs[k - 1]->0@));
        msrs_faults_are_placed(configs, k - 1, configs[k - 1]->0@.msr_modifiers.len() as int);
    }
}

// ---- an intersection is canonical, and intersecting it again changes nothing ----

/// `s` lists each register once, in full-width bitmaps, and only registers of the first `k`.
spec fn canonical_registers(s: Seq<RegisterModel>, registers: Seq<RegisterModel>, k: int) -> bool {
    &&& forall|i: int|
        0 <= i < s.len() ==> bitmap_u32((#[trigger] s[i]).bitmap) is Some && s[i].bitmap
            == bitmap_text(bitmap_u32(s[i].bitmap)->0 as nat, 32)
    &&& forall|i: int, j: int|
        0 <= i < j < s.len() ==> (#[trigger] s[i]).register != (#[trigger] s[j]).register
    &&& forall|i: int|
        0 <= i < s.len() ==> exists|p: int|
            0 <= p < k && (#[trigger] registers[p]).register == (#[trigger] s[i]).register
}

proof fn shared_registers_are_canonical(
    configs: Seq<ConfigModel>,
    key: CpuidLeafKey,
    registers: Seq<RegisterModel>,
    k: int,
)
    requires
        0 <= k <= registers.len(),
    ensures
        canonical_registers(shared_registers(configs, key, registers, k), registers, k),
    decreases k,
{
    if k > 0 {
        shared_registers_are_canonical(configs, key, registers, k - 1);
        let rest = shared_registers(configs, key, registers, k - 1);
        let all = shared_registers(configs, key, registers, k);
        let name = registers[k - 1].register;
        bitmap_round_trips_u32(register_and(configs, key, name, configs.len() as int), 32);
        assert forall|i: int| 0 <= i < all.len() implies exists|p: int|
            0 <= p < k && (#[trigger] registers[p]).register == (#[trigger] all[i]).register by {
            if i < rest.len() {
                assert(all[i] == rest[i]);
                let p = choose|p: int|
                    0 <= p < k - 1 && (#[trigger] registers[p]).register == rest[i].register;
                assert(registers[p].register == all[i].register);
            } else {
                assert(registers[k - 1].register == all[i].register);
            }
        }
        assert forall|i: int, j: int| 0 <= i < j < all.len() implies (#[trigger] all[i]).register
            != (#[trigger] all[j]).register by {
            assert(all[i] == rest[i]);
            if j < rest.len() {
                assert(all[j] == rest[j]);
            } else {
                assert(register_survives(configs, key, registers, k - 1));
                let p = choose|p: int|
                    0 <= p < k - 1 && (#[trigger] registers[p]).register == rest[i].register;
                assert(registers[p].register != name);
            }
        }
        assert forall|i: int| 0 <= i < all.len() implies bitmap_u32((#[trigger] all[i]).bitmap)
            is Some && all[i].bitmap == bitmap_text(
            bitmap_u32(all[i].bitmap)->0 as nat,
            32,
        ) by {
            if i < rest.len() {
                assert(all[i] == rest[i]);
            }
        }
    }
}

/// `s` lists each leaf once, each canonical, and only leaves of the first `k` modifiers.
spec fn canonical_leaves(s: Seq<CpuidModel>, mods: Seq<CpuidModel>, k: int) -> bool {
    &&& forall|i: int| 0 <= i < s.len() ==> canonical_leaf(#[trigger] s[i])
    &&& forall|i: int, j: int|
        0 <= i < j < s.len() ==> leaf_key(#[trigger] s[i]) != leaf_key(#[trigger] s[j])
    &&& forall|i: int|
        0 <= i < s.len() ==> exists|p: int|
            0 <= p < k && leaf_key(#[trigger] mods[p]) == leaf_key(#[trigger] s[i])
}

proof fn shared_leaves_are_canonical(configs: Seq<ConfigModel>, k: int)
    requires
        configs.len() > 0,
        0 <= k <= configs[0].cpuid_modifiers.len(),
    ensures
        canonical_leaves(shared_leaves(configs, k), configs[0].cpuid_modifiers, k),
    decreases k,
{
    if k > 0 {
        shared_leaves_are_canonical(configs, k - 1);
        let mods = configs[0].cpuid_modifiers;
        let m = mods[k - 1];
        let rest = shared_leaves(configs, k - 1);
        let all = shared_leaves(configs, k);
        shared_registers_are_canonical(
            configs,
            leaf_key(m)->0,
            m.modifiers,
            m.modifiers.len() as int,
        );
        if all.len() > rest.len() {
            assert(leaf_survives(configs, k - 1));
            assert(leaf_key(all[rest.len() as int]) == leaf_key(m));
            assert(canonical_leaf(all[rest.len() as int]));
        }
        assert forall|i: int| 0 <= i < all.len() implies canonical_leaf(#[trigger] all[i]) by {
            if i < rest.len() {
                assert(all[i] == rest[i]);
            }
        }
        assert forall|i: int| 0 <= i < all.len() implies exists|p: int|
            0 <= p < k && leaf_key(#[trigger] mods[p]) == leaf_key(#[trigger] all[i]) by {
            if i < rest.len() {
                assert(all[i] == rest[i]);
                let p = choose|p: int|
                    0 <= p < k - 1 && leaf_key(#[trigger] mods[p]) == leaf_key(rest[i]);
                assert(leaf_key(mods[p]) == leaf_key(all[i]));
            } else {
                assert(leaf_key(mods[k - 1]) == leaf_key(all[i]));
            }
        }
        assert forall|i: int, j: int| 0 <= i < j < all.len() implies leaf_key(#[trigger] all[i])
            != leaf_key(#[trigger] all[j]) by {
            assert(all[i] == rest[i]);
            if j < rest.len() {
                assert(all[j] == rest[j]);
            } else {
                let p = choose|p: int|
                    0 <= p < k - 1 && leaf_key(#[trigger] mods[p]) == leaf_key(rest[i]);
                assert(leaf_key(mods[p]) != leaf_key(m));
            }
        }
    }
}

/// `s` lists each address once, each canonical, and only addresses of the first `k` modifiers.
spec fn canonical_msrs(s: Seq<MsrModel>, mods: Seq<MsrModel>, k: int) -> bool {
    &&& forall|i: int| 0 <= i < s.len() ==> canonical_msr(#[trigger] s[i])
    &&& forall|i: int, j: int|
        0 <= i < j < s.len() ==> hex_u32((#[trigger] s[i]).addr) != hex_u32((#[trigger] s[j]).addr)
    &&& forall|i: int|
        0 <= i < s.len() ==> exists|p: int|
            0 <= p < k && hex_u32((#[trigger] mods[p]).addr) == hex_u32((#[trigger] s[i]).addr)
}

proof fn shared_msrs_are_canonical(configs: Seq<ConfigModel>, k: int)
    requires
        configs.len() > 0,
        0 <= k <= configs[0].msr_modifiers.len(),
    ensures
        canonical_msrs(shared_msrs(configs, k), configs[0].msr_modifiers, k),
    decreases k,
{
    if k > 0 {
        shared_msrs_are_canonical(configs, k - 1);
        let mods = configs[0].msr_modifiers;
        let m = mods[k - 1];
        let rest = shared_msrs(configs, k - 1);
        let all = shared_msrs(configs, k);
        bitmap_round_trips_u64(msr_and(configs, hex_u32(m.addr)->0, configs.len() as int), 64);
        assert forall|i: int| 0 <= i < all.len() implies canonical_msr(#[trigger] all[i]) by {
            if i < rest.len() {
                assert(all[i] == rest[i]);
            } else {
                assert(msr_survives(configs, k - 1));
            }
        }
        assert forall|i: int| 0 <= i < all.len() implies exists|p: int|
            0 <= p < k && hex_u32((#[trigger] mods[p]).addr) == hex_u32((#[trigger] all[i]).addr) by {
            if i < rest.len() {
                assert(all[i] == rest[i]);
                let p = choose|p: int|
                    0 <= p < k - 1 && hex_u32((#[trigger] mods[p]).addr) == hex_u32(rest[i].addr);
                assert(hex_u32(mods[p].addr) == hex_u32(all[i].addr));
            } else {
                assert(hex_u32(mods[k - 1].addr) == hex_u32(all[i].addr));
            }
        }
        assert forall|i: int, j: int| 0 <= i < j < all.len() implies hex_u32(
            (#[trigger] all[i]).addr,
        ) != hex_u32((#[trigger] all[j]).addr) by {
            assert(all[i] == rest[i]);
            if j < rest.len() {
                assert(all[j] == rest[j]);
            } else {
                assert(msr_survives(configs, k - 1));
                let p = choose|p: int|
                    0 <= p < k - 1 && hex_u32((#[trigger] mods[p]).addr) == hex_u32(rest[i].addr);
                assert(hex_u32(mods[p].addr) != hex_u32(m.addr));
            }
        }
    }
}

/// What an intersection writes is in canonical form.
pub proof fn intersections_are_canonical(configs: Seq<ConfigModel>, r: ConfigModel)
    requires
        configs.len() > 0,
        is_intersection(configs, r),
    ensures
        is_canonical(r),
{
    shared_leaves_are_canonical(configs, configs[0].cpuid_modifiers.len() as int);
    shared_msrs_are_canonical(configs, configs[0].msr_modifiers.len() as int);
}

proof fn shared_registers_grow(
    configs: Seq<ConfigModel>,
    key: CpuidLeafKey,
    registers: Seq<RegisterModel>,
    k: int,
    n: int,
)
    requires
        0 <= k <= n,
    ensures
        shared_registers(configs, key, registers, k).len() <= shared_registers(
            configs,
            key,
            registers,
            n,
        ).len(),
        forall|i: int|
            0 <= i < shared_registers(configs, key, registers, k).len()
                ==> #[trigger] shared_registers(configs, key, registers, n)[i] == shared_registers(
                configs,
                key,
                registers,
                k,
            )[i],
    decreases n - k,
{
    if k < n {
        shared_registers_grow(configs, key, registers, k, n - 1);
    }
}

proof fn shared_leaves_grow(configs: Seq<ConfigModel>, k: int, n: int)
    requires
        0 <= k <= n,
    ensures
        shared_leaves(configs, k).len() <= shared_leaves(configs, n).len(),
        forall|i: int|
            0 <= i < shared_leaves(configs, k).len() ==> #[trigger] shared_leaves(configs, n)[i]
                == shared_leaves(configs, k)[i],
    decreases n - k,
{
    if k < n {
        shared_leaves_grow(configs, k, n - 1);
    }
}

proof fn shared_msrs_grow(configs: Seq<ConfigModel>, k: int, n: int)
    requires
        0 <= k <= n,
    ensures
        shared_msrs(configs, k).len() <= shared_msrs(configs, n).len(),
        forall|i: int|
            0 <= i < shared_msrs(configs, k).len() ==> #[trigger] shared_msrs(configs, n)[i]
                == shared_msrs(configs, k)[i],
    decreases n - k,
{
    if k < n {
        shared_msrs_grow(configs, k, n - 1);
    }
}

/// The result sets a surviving register of a surviving leaf to the AND over the configs.
proof fn result_bits(configs: Seq<ConfigModel>, r: ConfigModel, k: int, q: int)
    requires
        configs.len() > 0,
        is_intersection(configs, r),
        0 <= k < configs[0].cpuid_modifiers.len(),
        leaf_survives(configs, k),
        0 <= q < configs[0].cpuid_modifiers[k].modifiers.len(),
        register_survives(
            configs,
            leaf_key(configs[0].cpuid_modifiers[k])->0,
            configs[0].cpuid_modifiers[k].modifiers,
            q,
        ),
    ensures
        has_leaf(r, leaf_key(configs[0].cpuid_modifiers[k])->0),
        register_bits(
            r,
            leaf_key(configs[0].cpuid_modifiers[k])->0,
            configs[0].cpuid_modifiers[k].modifiers[q].register,
        ) == Some(
            register_and(
                configs,
                leaf_key(configs[0].cpuid_modifiers[k])->0,
                configs[0].cpuid_modifiers[k].modifiers[q].register,
                configs.len() as int,
            ),
        ),
{
    let mods = configs[0].cpuid_modifiers;
    let m = mods[k];
    let key = leaf_key(m)->0;
    let regs = m.modifiers;
    let name = regs[q].register;
    let kept = leaf_registers(configs, k);
    // The register stands in the leaf that the result writes for this modifier.
    shared_registers_grow(configs, key, regs, q + 1, regs.len() as int);
    let i = shared_registers(configs, key, regs, q).len() as int;
    let entry = shared_registers(configs, key, regs, q + 1)[i];
    assert(kept[i] == entry);
    assert(kept.len() > 0);
    shared_leaves_grow(configs, k + 1, mods.len() as int);
    let j = shared_leaves(configs, k).len() as int;
    let leaf = shared_leaves(configs, k + 1)[j];
    assert(r.cpuid_modifiers[j] == leaf);
    assert(leaf.modifiers == kept);
    assert(leaf_key(r.cpuid_modifiers[j]) == Some(key));
    intersections_are_canonical(configs, r);
    canonical_leaf_register(r, j, i, r.cpuid_modifiers.len() as int);
    bitmap_round_trips_u32(register_and(configs, key, name, configs.len() as int), 32);
}

proof fn and_of_extended(
    configs: Seq<ConfigModel>,
    r: ConfigModel,
    key: CpuidLeafKey,
    register: Seq<char>,
    k: int,
)
    requires
        0 <= k <= configs.len(),
    ensures
        register_and(configs.push(r), key, register, k) == register_and(configs, key, register, k),
    decreases k,
{
    if k > 0 {
        and_of_extended(configs, r, key, register, k - 1);
        assert(configs.push(r)[k - 1] == configs[k - 1]);
    }
}

proof fn msr_and_of_extended(configs: Seq<ConfigModel>, r: ConfigModel, addr: u32, k: int)
    requires
        0 <= k <= configs.len(),
    ensures
        msr_and(configs.push(r), addr, k) == msr_and(configs, addr, k),
    decreases k,
{
    if k > 0 {
        msr_and_of_extended(configs, r, addr, k - 1);
        assert(configs.push(r)[k - 1] == configs[k - 1]);
    }
}

proof fn extended_keeps_registers(configs: Seq<ConfigModel>, r: ConfigModel, k: int, q: int)
    requires
        configs.len() > 0,
        is_intersection(configs, r),
        0 <= k < configs[0].cpuid_modifiers.len(),
        leaf_survives(configs, k),
        0 <= q <= configs[0].cpuid_modifiers[k].modifiers.len(),
    ensures
        shared_registers(
            configs.push(r),
            leaf_key(configs[0].cpuid_modifiers[k])->0,
            configs[0].cpuid_modifiers[k].modifiers,
            q,
        ) == shared_registers(
            configs,
            leaf_key(configs[0].cpuid_modifiers[k])->0,
            configs[0].cpuid_modifiers[k].modifiers,
            q,
        ),
    decreases q,
{
    if q > 0 {
        extended_keeps_registers(configs, r, k, q - 1);
        let ext = configs.push(r);
        let m = configs[0].cpuid_modifiers[k];
        let key = leaf_key(m)->0;
        let regs = m.modifiers;
        let name = regs[q - 1].register;
        if register_survives(configs, key, regs, q - 1) {
            result_bits(configs, r, k, q - 1);
            assert forall|c: int| 0 <= c < ext.len() implies register_bits(
                #[trigger] ext[c],
                key,
                name,
            ) is Some by {
                if c < configs.len() {
                    assert(ext[c] == configs[c]);
                    assert(register_bits(configs[c], key, name) is Some);
                } else {
                    assert(ext[c] == r);
                }
            }
            assert(register_survives(ext, key, regs, q - 1));
            and_of_extended(configs, r, key, name, configs.len() as int);
            let v = register_and(configs, key, name, configs.len() as int);
            assert(ext[ext.len() - 1] == r);
            assert(v & v == v) by (bit_vector);
            assert(register_and(ext, key, name, ext.len() as int) == v);
        } else if register_survives(ext, key, regs, q - 1) {
            assert forall|c: int| 0 <= c < configs.len() implies register_bits(
                #[trigger] configs[c],
                key,
                name,
            ) is Some by {
                assert(ext[c] == configs[c]);
                assert(register_bits(ext[c], key, name) is Some);
            }
            assert(register_survives(configs, key, regs, q - 1));
        }
    }
}

proof fn extended_keeps_leaves(configs: Seq<ConfigModel>, r: ConfigModel, k: int)
    requires
        configs.len() > 0,
        is_intersection(configs, r),
        0 <= k <= configs[0].cpuid_modifiers.len(),
    ensures
        shared_leaves(configs.push(r), k) == shared_leaves(configs, k),
    decreases k,
{
    let ext = configs.push(r);
    assert(ext[0] == configs[0]);
    if k > 0 {
        extended_keeps_leaves(configs, r, k - 1);
        let m = configs[0].cpuid_modifiers[k - 1];
        let n = m.modifiers.len() as int;
        if leaf_survives(configs, k - 1) {
            let key = leaf_key(m)->0;
            extended_keeps_registers(configs, r, k - 1, n);
            let kept = leaf_registers(configs, k - 1);
            assert(leaf_registers(ext, k - 1) == kept);
            if kept.len() > 0 {
                surviving_entry(configs, key, m.modifiers, n);
                let q = choose|q: int|
                    0 <= q < n && #[trigger] register_survives(configs, key, m.modifiers, q);
                result_bits(configs, r, k - 1, q);
                assert forall|c: int| 0 <= c < ext.len() implies has_leaf(
                    #[trigger] ext[c],
                    key,
                ) by {
                    if c < configs.len() {
                        assert(ext[c] == configs[c]);
                        assert(has_leaf(configs[c], key));
                    } else {
                        assert(ext[c] == r);
                    }
                }
                assert(leaf_survives(ext, k - 1));
            }
        } else if leaf_survives(ext, k - 1) {
            let key = leaf_key(m)->0;
            assert forall|c: int| 0 <= c < configs.len() implies has_leaf(
                #[trigger] configs[c],
                key,
            ) by {
                assert(ext[c] == configs[c]);
                assert(has_leaf(ext[c], key));
            }
            assert(leaf_survives(configs, k - 1));
        }
    }
}

proof fn surviving_entry(
    configs: Seq<ConfigModel>,
    key: CpuidLeafKey,
    registers: Seq<RegisterModel>,
    k: int,
)
    requires
        0 <= k <= registers.len(),
        shared_registers(configs, key, registers, k).len() > 0,
    ensures
        exists|q: int| 0 <= q < k && #[trigger] register_survives(configs, key, registers, q),
    decreases k,
{
    if k > 0 {
        if register_survives(configs, key, registers, k - 1) {
        } else {
            surviving_entry(configs, key, registers, k - 1);
        }
    }
}

proof fn extended_keeps_msrs(configs: Seq<ConfigModel>, r: ConfigModel, k: int)
    requires
        configs.len() > 0,
        is_intersection(configs, r),
        0 <= k <= configs[0].msr_modifiers.len(),
    ensures
        shared_msrs(configs.push(r), k) == shared_msrs(configs, k),
    decreases k,
{
    let ext = configs.push(r);
    assert(ext[0] == configs[0]);
    if k > 0 {
        extended_keeps_msrs(configs, r, k - 1);
        let mods = configs[0].msr_modifiers;
        let m = mods[k - 1];
        let addr = hex_u32(m.addr)->0;
        if msr_survives(configs, k - 1) {
            let v = msr_and(configs, addr, configs.len() as int);
            shared_msrs_grow(configs, k, mods.len() as int);
            let j = shared_msrs(configs, k - 1).len() as int;
            assert(r.msr_modifiers[j] == shared_msrs(configs, k)[j]);
            intersections_are_canonical(configs, r);
            canonical_msr_entry(r, j, r.msr_modifiers.len() as int);
            bitmap_round_trips_u64(v, 64);
            assert(msr_bits(r, addr) == Some(v));
            assert forall|c: int| 0 <= c < ext.len() implies msr_bits(#[trigger] ext[c], addr)
                is Some by {
                if c < configs.len() {
                    assert(ext[c] == configs[c]);
                    assert(msr_bits(configs[c], addr) is Some);
                } else {
                    assert(ext[c] == r);
                }
            }
            assert(msr_survives(ext, k - 1));
            msr_and_of_extended(configs, r, addr, configs.len() as int);
            assert(ext[ext.len() - 1] == r);
            assert(v & v == v) by (bit_vector);
            assert(msr_and(ext, addr, ext.len() as int) == v);
        } else if msr_survives(ext, k - 1) {
            assert forall|c: int| 0 <= c < configs.len() implies msr_bits(#[trigger] configs[c], addr)
                is Some by {
                assert(ext[c] == configs[c]);
                assert(msr_bits(ext[c], addr) is Some);
            }
            assert(msr_survives(configs, k - 1));
        }
    }
}

/// Intersecting again changes nothing: an intersection alone is its own intersection, and so it is
/// together with the configs that it came from, as a last one.
pub proof fn intersecting_again_changes_nothing(configs: Seq<ConfigModel>, r: ConfigModel)
    requires
        configs.len() > 0,
        is_intersection(configs, r),
    ensures
        is_intersection(seq![r], r),
        is_intersection(configs.push(r), r),
{
    intersections_are_canonical(configs, r);
    identical_configs_are_their_intersection(seq![r], r);
    let ext = configs.push(r);
    assert(ext[0] == configs[0]);
    extended_keeps_leaves(configs, r, configs[0].cpuid_modifiers.len() as int);
    extended_keeps_msrs(configs, r, configs[0].msr_modifiers.len() as int);
    assert forall|x: Seq<char>| #[trigger]
        r.kvm_capabilities.contains(x) <==> capability_everywhere(ext, x) by {
        if capability_everywhere(configs, x) {
            assert forall|c: int| 0 <= c < ext.len() implies (
            #[trigger] ext[c]).kvm_capabilities.contains(x) by {
                if c < configs.len() {
                    assert(ext[c] == configs[c]);
                    assert(configs[c].kvm_capabilities.contains(x));
                } else {
                    assert(ext[c] == r);
                }
            }
        }
        if capability_everywhere(ext, x) {
            assert(ext[ext.len() - 1] == r);
            assert(ext[ext.len() - 1].kvm_capabilities.contains(x));
        }
    }
}

proof fn canonical_modifiers_have_no_fault(config: int, c: ConfigModel, k: int)
    requires
        is_canonical(c),
        0 <= k <= c.cpuid_modifiers.len(),
    ensures
        modifiers_fault(config, c.cpuid_modifiers, k) is None,
    decreases k,
{
    if k > 0 {
        canonical_modifiers_have_no_fault(config, c, k - 1);
        let m = c.cpuid_modifiers[k - 1];
        assert(canonical_leaf(m));
        canonical_registers_have_no_fault(config, k - 1, m, m.modifiers.len() as int);
    }
}

proof fn canonical_registers_have_no_fault(config: int, modifier: int, m: CpuidModel, k: int)
    requires
        canonical_leaf(m),
        0 <= k <= m.modifiers.len(),
    ensures
        register_fault(config, modifier, m.modifiers, k) is None,
    decreases k,
{
    if k > 0 {
        canonical_registers_have_no_fault(config, modifier, m, k - 1);
        assert(bitmap_u32(m.modifiers[k - 1].bitmap) is Some);
    }
}

proof fn canonical_msrs_have_no_fault(config: int, c: ConfigModel, k: int)
    requires
        is_canonical(c),
        0 <= k <= c.msr_modifiers.len(),
    ensures
        msrs_fault(config, c.msr_modifiers, k) is None,
    decreases k,
{
    if k > 0 {
        canonical_msrs_have_no_fault(config, c, k - 1);
        assert(canonical_msr(c.msr_modifiers[k - 1]));
    }
}

proof fn faults_of_a_prefix(configs: Seq<ConfigModel>, r: ConfigModel, k: int)
    requires
        0 <= k <= configs.len(),
    ensures
        cpuid_fault(configs.push(r), k) == cpuid_fault(configs, k),
        msr_fault(configs.push(r), k) == msr_fault(configs, k),
    decreases k,
{
    if k > 0 {
        faults_of_a_prefix(configs, r, k - 1);
        assert(configs.push(r)[k - 1] == configs[k - 1]);
    }
}

/// Intersecting again succeeds: a config in canonical form brings no fault to configs that have
/// none, nor to no configs at all.
pub proof fn canonical_configs_bring_no_fault(configs: Seq<ConfigModel>, r: ConfigModel)
    requires
        is_canonical(r),
        cpuid_fault(configs, configs.len() as int) is None,
        msr_fault(configs, configs.len() as int) is None,
    ensures
        cpuid_fault(configs.push(r), configs.len() as int + 1) is None,
        msr_fault(configs.push(r), configs.len() as int + 1) is None,
{
    let n = configs.len() as int;
    faults_of_a_prefix(configs, r, n);
    assert(configs.push(r)[n] == r);
    canonical_modifiers_have_no_fault(n, r, r.cpuid_modifiers.len() as int);
    canonical_msrs_have_no_fault(n, r, r.msr_modifiers.len() as int);
}

/// The law over the configs that the function takes: where configs intersect to `r`, so do `r`
/// alone and the configs with `r` as a last one, without a fault, and the JSON text is the same.
pub proof fn results_are_stable(
    configs: Seq<Option<CpuConfig>>,
    result: CpuConfig,
    again: ConfigModel,
    with_inputs: ConfigModel,
)
    requires
        configs.len() > 0,
        intersection_fault(configs) is None,
        is_intersection(parsed_models(configs), result@),
        is_intersection(parsed_models(seq![Some(result)]), again),
        is_intersection(parsed_models(configs.push(Some(result))), with_inputs),
    ensures
        intersection_fault(seq![Some(result)]) is None,
        intersection_fault(configs.push(Some(result))) is None,
        config_json(again) == config_json(result@),
        config_json(with_inputs) == config_json(result@),
{
    let models = parsed_models(configs);
    let r = result@;
    let alone = seq![Some(result)];
    let ext = configs.push(Some(result));
    assert(parsed_models(alone) =~= seq![r]);
    assert(parsed_models(ext) =~= models.push(r));
    assert(seq![r] =~= Seq::<ConfigModel>::empty().push(r));
    intersections_are_canonical(models, r);
    intersecting_again_changes_nothing(models, r);
    intersection_is_unique(seq![r], again, r);
    intersection_is_unique(models.push(r), with_inputs, r);
    canonical_configs_bring_no_fault(models, r);
    canonical_configs_bring_no_fault(Seq::empty(), r);
    parse_fault_of_a_prefix(configs, Some(result), configs.len() as int);
    assert(ext[configs.len() as int] == Some(result));
    assert(parse_fault(ext, configs.len() as int + 1) is None);
    assert(parse_fault(alone, 0) is None);
    assert(alone[0] == Some(result));
    assert(parse_fault(alone, 1) is None);
}

proof fn parse_fault_of_a_prefix(
    configs: Seq<Option<CpuConfig>>,
    last: Option<CpuConfig>,
    k: int,
)
    requires
        0 <= k <= configs.len(),
    ensures
        parse_fault(configs.push(last), k) == parse_fault(configs, k),
    decreases k,
{
    if k > 0 {
        parse_fault_of_a_prefix(configs, last, k - 1);
        assert(configs.push(last)[k - 1] == configs[k - 1]);
    }
}

// ---- what every config has is kept ----

/// The first of the registers up to `q` that has the name of the one at `q`.
proof fn first_of_its_name(registers: Seq<RegisterModel>, q: int) -> (f: int)
    requires
        0 <= q < registers.len(),
    ensures
        0 <= f <= q,
        registers[f].register == registers[q].register,
        forall|p: int|
            0 <= p < f ==> (#[trigger] registers[p]).register != registers[f].register,
    decreases q,
{
    if exists|p: int|
        0 <= p < q && (#[trigger] registers[p]).register == registers[q].register {
        let p = choose|p: int|
            0 <= p < q && (#[trigger] registers[p]).register == registers[q].register;
        first_of_its_name(registers, p)
    } else {
        q
    }
}

/// A config that says something of a register has the leaf that the register is in.
proof fn registers_are_in_leaves(c: ConfigModel, key: CpuidLeafKey, register: Seq<char>, k: int)
    requires
        0 <= k <= c.cpuid_modifiers.len(),
        leaf_register(c.cpuid_modifiers, key, register, k) is Some,
    ensures
        has_leaf(c, key),
    decreases k,
{
    if k > 0 {
        if leaf_key(c.cpuid_modifiers[k - 1]) == Some(key) {
        } else {
            registers_are_in_leaves(c, key, register, k - 1);
        }
    }
}

/// The intersection keeps everything that is shared: a register that every config has, in a leaf
/// other than 0xb, is in the result, in the first config's spelling, and it sets every bit that all
/// of them set and no other. `k` and `q` are where the first config lists the leaf first, and the
/// register in it.
pub proof fn shared_registers_are_kept(
    configs: Seq<ConfigModel>,
    r: ConfigModel,
    key: CpuidLeafKey,
    k: int,
    q: int,
)
    requires
        configs.len() > 0,
        is_intersection(configs, r),
        key.leaf != 0xb,
        0 <= k < configs[0].cpuid_modifiers.len(),
        leaf_key(configs[0].cpuid_modifiers[k]) == Some(key),
        forall|p: int|
            0 <= p < k ==> leaf_key(#[trigger] configs[0].cpuid_modifiers[p]) != Some(key),
        0 <= q < configs[0].cpuid_modifiers[k].modifiers.len(),
        forall|c: int|
            0 <= c < configs.len() ==> register_bits(
                #[trigger] configs[c],
                key,
                configs[0].cpuid_modifiers[k].modifiers[q].register,
            ) is Some,
    ensures
        exists|j: int, i: int|
            0 <= j < r.cpuid_modifiers.len() && 0 <= i < r.cpuid_modifiers[j].modifiers.len()
                && r.cpuid_modifiers[j].leaf == configs[0].cpuid_modifiers[k].leaf
                && r.cpuid_modifiers[j].subleaf == configs[0].cpuid_modifiers[k].subleaf
                && r.cpuid_modifiers[j].flags == configs[0].cpuid_modifiers[k].flags && (
            #[trigger] r.cpuid_modifiers[j].modifiers[i]).register
                == configs[0].cpuid_modifiers[k].modifiers[q].register,
        register_bits(r, key, configs[0].cpuid_modifiers[k].modifiers[q].register) is Some,
        forall|y: u32|
            #![trigger within_u32(
                y,
                register_bits(r, key, configs[0].cpuid_modifiers[k].modifiers[q].register)->0,
            )]
            within_u32(
                y,
                register_bits(r, key, configs[0].cpuid_modifiers[k].modifiers[q].register)->0,
            ) <==> forall|c: int|
                0 <= c < configs.len() ==> within_u32(
                    y,
                    register_bits(
                        #[trigger] configs[c],
                        key,
                        configs[0].cpuid_modifiers[k].modifiers[q].register,
                    )->0,
                ),
{
    let m = configs[0].cpuid_modifiers[k];
    let regs = m.modifiers;
    let name = regs[q].register;
    assert forall|c: int| 0 <= c < configs.len() implies has_leaf(#[trigger] configs[c], key) by {
        assert(register_bits(configs[c], key, name) is Some);
        registers_are_in_leaves(
            configs[c],
            key,
            name,
            configs[c].cpuid_modifiers.len() as int,
        );
    }
    assert(leaf_survives(configs, k));
    let f = first_of_its_name(regs, q);
    assert(register_survives(configs, key, regs, f));
    result_bits(configs, r, k, f);
    // Where the entry stands.
    shared_registers_grow(configs, key, regs, f + 1, regs.len() as int);
    let i = shared_registers(configs, key, regs, f).len() as int;
    let entry = shared_registers(configs, key, regs, f + 1)[i];
    assert(leaf_registers(configs, k)[i] == entry);
    shared_leaves_grow(configs, k + 1, configs[0].cpuid_modifiers.len() as int);
    let j = shared_leaves(configs, k).len() as int;
    let leaf = shared_leaves(configs, k + 1)[j];
    assert(r.cpuid_modifiers[j] == leaf);
    assert(r.cpuid_modifiers[j].modifiers[i].register == name);
    assert forall|y: u32|
        #![trigger within_u32(y, register_bits(r, key, name)->0)]
        within_u32(y, register_bits(r, key, name)->0) <==> forall|c: int|
            0 <= c < configs.len() ==> within_u32(
                y,
                register_bits(#[trigger] configs[c], key, name)->0,
            ) by {
        register_and_is_greatest(configs, key, name, configs.len() as int, y);
    }
}

/// The intersection keeps every MSR that is shared: an address that every config has is in the
/// result, in the first config's spelling, and it sets every bit that all of them set and no other.
/// `k` is where the first config lists the address first.
pub proof fn shared_msrs_are_kept(configs: Seq<ConfigModel>, r: ConfigModel, addr: u32, k: int)
    requires
        configs.len() > 0,
        is_intersection(configs, r),
        0 <= k < configs[0].msr_modifiers.len(),
        hex_u32(configs[0].msr_modifiers[k].addr) == Some(addr),
        forall|p: int|
            0 <= p < k ==> hex_u32((#[trigger] configs[0].msr_modifiers[p]).addr) != Some(addr),
        forall|c: int| 0 <= c < configs.len() ==> msr_bits(#[trigger] configs[c], addr) is Some,
    ensures
        exists|j: int|
            0 <= j < r.msr_modifiers.len() && (#[trigger] r.msr_modifiers[j]).addr
                == configs[0].msr_modifiers[k].addr,
        msr_bits(r, addr) is Some,
        forall|y: u64|
            #![trigger within_u64(y, msr_bits(r, addr)->0)]
            within_u64(y, msr_bits(r, addr)->0) <==> forall|c: int|
                0 <= c < configs.len() ==> within_u64(y, msr_bits(#[trigger] configs[c], addr)->0),
{
    let v = msr_and(configs, addr, configs.len() as int);
    assert(msr_survives(configs, k));
    shared_msrs_grow(configs, k + 1, configs[0].msr_modifiers.len() as int);
    let j = shared_msrs(configs, k).len() as int;
    assert(r.msr_modifiers[j] == shared_msrs(configs, k + 1)[j]);
    assert(r.msr_modifiers[j].addr == configs[0].msr_modifiers[k].addr);
    intersections_are_canonical(configs, r);
    canonical_msr_entry(r, j, r.msr_modifiers.len() as int);
    bitmap_round_trips_u64(v, 64);
    assert forall|y: u64|
        #![trigger within_u64(y, msr_bits(r, addr)->0)]
        within_u64(y, msr_bits(r, addr)->0) <==> forall|c: int|
            0 <= c < configs.len() ==> within_u64(y, msr_bits(#[trigger] configs[c], addr)->0) by {
        msr_and_is_greatest(configs, addr, configs.len() as int, y);
    }
}

/// The intersection keeps every capability that all configs list, and leaf 0xb never.
pub proof fn capabilities_are_kept_and_leaf_0xb_is_not(configs: Seq<ConfigModel>, r: ConfigModel)
    requires
        configs.len() > 0,
        is_intersection(configs, r),
    ensures
        forall|x: Seq<char>|
            (forall|c: int|
                0 <= c < configs.len() ==> (#[trigger] configs[c]).kvm_capabilities.contains(x))
                ==> #[trigger] r.kvm_capabilities.contains(x),
        forall|j: int|
            0 <= j < r.cpuid_modifiers.len() ==> hex_u32((#[trigger] r.cpuid_modifiers[j]).leaf)
                != Some(0xbu32),
{
    shared_leaves_are_shared(configs, configs[0].cpuid_modifiers.len() as int);
    assert forall|x: Seq<char>|
        (forall|c: int|
            0 <= c < configs.len() ==> (#[trigger] configs[c]).kvm_capabilities.contains(
                x,
            )) implies #[trigger] r.kvm_capabilities.contains(x) by {
        assert(capability_everywhere(configs, x));
    }
    assert forall|j: int| 0 <= j < r.cpuid_modifiers.len() implies hex_u32(
        (#[trigger] r.cpuid_modifiers[j]).leaf,
    ) != Some(0xbu32) by {
        assert(leaf_is_shared(configs, r.cpuid_modifiers[j]));
    }
}

// ---- the order of the first config ----

proof fn leaf_sources(configs: Seq<ConfigModel>, k: int, j: int) -> (p: int)
    requires
        0 <= k,
        0 <= j < shared_leaves(configs, k).len(),
    ensures
        0 <= p < k,
        j == shared_leaves(configs, p).len(),
        shared_leaves(configs, k)[j].leaf == configs[0].cpuid_modifiers[p].leaf,
        shared_leaves(configs, k)[j].subleaf == configs[0].cpuid_modifiers[p].subleaf,
        shared_leaves(configs, k)[j].flags == configs[0].cpuid_modifiers[p].flags,
    decreases k,
{
    if k > 0 {
        if j < shared_leaves(configs, k - 1).len() {
            leaf_sources(configs, k - 1, j)
        } else {
            k - 1
        }
    } else {
        0
    }
}

proof fn msr_sources(configs: Seq<ConfigModel>, k: int, j: int) -> (p: int)
    requires
        0 <= k,
        0 <= j < shared_msrs(configs, k).len(),
    ensures
        0 <= p < k,
        j == shared_msrs(configs, p).len(),
        shared_msrs(configs, k)[j].addr == configs[0].msr_modifiers[p].addr,
    decreases k,
{
    if k > 0 {
        if j < shared_msrs(configs, k - 1).len() {
            msr_sources(configs, k - 1, j)
        } else {
            k - 1
        }
    } else {
        0
    }
}

/// The result lists leaves and MSRs in the order and spelling of the first config.
pub proof fn the_first_config_sets_the_order(configs: Seq<ConfigModel>, r: ConfigModel, i: int, j: int)
    requires
        configs.len() > 0,
        is_intersection(configs, r),
        0 <= i < j,
    ensures
        j < r.cpuid_modifiers.len() ==> exists|p: int, q: int|
            0 <= p < q < configs[0].cpuid_modifiers.len() && (
            #[trigger] configs[0].cpuid_modifiers[p]).leaf == r.cpuid_modifiers[i].leaf
                && configs[0].cpuid_modifiers[p].subleaf == r.cpuid_modifiers[i].subleaf
                && configs[0].cpuid_modifiers[p].flags == r.cpuid_modifiers[i].flags && (
            #[trigger] configs[0].cpuid_modifiers[q]).leaf == r.cpuid_modifiers[j].leaf
                && configs[0].cpuid_modifiers[q].subleaf == r.cpuid_modifiers[j].subleaf
                && configs[0].cpuid_modifiers[q].flags == r.cpuid_modifiers[j].flags,
        j < r.msr_modifiers.len() ==> exists|p: int, q: int|
            0 <= p < q < configs[0].msr_modifiers.len() && (#[trigger] configs[0].msr_modifiers[p]).addr
                == r.msr_modifiers[i].addr && (#[trigger] configs[0].msr_modifiers[q]).addr
                == r.msr_modifiers[j].addr,
{
    if j < r.cpuid_modifiers.len() {
        let n = configs[0].cpuid_modifiers.len() as int;
        let p = leaf_sources(configs, n, i);
        let q = leaf_sources(configs, n, j);
        if q <= p {
            shared_leaves_grow(configs, q, p);
        }
        assert(configs[0].cpuid_modifiers[p].leaf == r.cpuid_modifiers[i].leaf);
        assert(configs[0].cpuid_modifiers[q].leaf == r.cpuid_modifiers[j].leaf);
    }
    if j < r.msr_modifiers.len() {
        let n = configs[0].msr_modifiers.len() as int;
        let p = msr_sources(configs, n, i);
        let q = msr_sources(configs, n, j);
        if q <= p {
            shared_msrs_grow(configs, q, p);
        }
        assert(configs[0].msr_modifiers[p].addr == r.msr_modifiers[i].addr);
        assert(configs[0].msr_modifiers[q].addr == r.msr_modifiers[j].addr);
    }
}

// ---- later entries override earlier ones ----

proof fn last_register_entry(registers: Seq<RegisterModel>, i: int, k: int)
    requires
        0 <= i < k <= registers.len(),
        forall|p: int|
            i < p < k ==> (#[trigger] registers[p]).register != registers[i].register,
    ensures
        register_entry(registers, registers[i].register, k) == bitmap_u32(registers[i].bitmap),
    decreases k,
{
    if i < k - 1 {
        assert(registers[k - 1].register != registers[i].register);
        last_register_entry(registers, i, k - 1);
    }
}

proof fn absent_register_entry(registers: Seq<RegisterModel>, register: Seq<char>, k: int)
    requires
        0 <= k <= registers.len(),
        forall|p: int| 0 <= p < k ==> (#[trigger] registers[p]).register != register,
    ensures
        register_entry(registers, register, k) is None,
    decreases k,
{
    if k > 0 {
        absent_register_entry(registers, register, k - 1);
    }
}

proof fn last_leaf_register(c: ConfigModel, key: CpuidLeafKey, j: int, i: int, k: int)
    requires
        0 <= j < k <= c.cpuid_modifiers.len(),
        leaf_key(c.cpuid_modifiers[j]) == Some(key),
        0 <= i < c.cpuid_modifiers[j].modifiers.len(),
        bitmap_u32(c.cpuid_modifiers[j].modifiers[i].bitmap) is Some,
        forall|p: int|
            i < p < c.cpuid_modifiers[j].modifiers.len() ==> (
            #[trigger] c.cpuid_modifiers[j].modifiers[p]).register
                != c.cpuid_modifiers[j].modifiers[i].register,
        forall|m: int, p: int|
            j < m < c.cpuid_modifiers.len() && leaf_key(c.cpuid_modifiers[m]) == Some(key) && 0 <= p
                < c.cpuid_modifiers[m].modifiers.len() ==> (
            #[trigger] c.cpuid_modifiers[m].modifiers[p]).register
                != c.cpuid_modifiers[j].modifiers[i].register,
    ensures
        leaf_register(
            c.cpuid_modifiers,
            key,
            c.cpuid_modifiers[j].modifiers[i].register,
            k,
        ) == bitmap_u32(c.cpuid_modifiers[j].modifiers[i].bitmap),
    decreases k,
{
    let m = c.cpuid_modifiers[k - 1];
    let name = c.cpuid_modifiers[j].modifiers[i].register;
    if j == k - 1 {
        last_register_entry(m.modifiers, i, m.modifiers.len() as int);
    } else {
        if leaf_key(m) == Some(key) {
            assert forall|p: int| 0 <= p < m.modifiers.len() implies (
            #[trigger] m.modifiers[p]).register != name by {
                assert(c.cpuid_modifiers[k - 1].modifiers[p].register != name);
            }
            absent_register_entry(m.modifiers, name, m.modifiers.len() as int);
        }
        last_leaf_register(c, key, j, i, k - 1);
    }
}

/// Of several entries for one register of one leaf the last counts: the bits of a register are
/// those that its last entry spells.
pub proof fn the_last_register_entry_counts(c: ConfigModel, key: CpuidLeafKey, j: int, i: int)
    requires
        0 <= j < c.cpuid_modifiers.len(),
        leaf_key(c.cpuid_modifiers[j]) == Some(key),
        0 <= i < c.cpuid_modifiers[j].modifiers.len(),
        bitmap_u32(c.cpuid_modifiers[j].modifiers[i].bitmap) is Some,
        forall|p: int|
            i < p < c.cpuid_modifiers[j].modifiers.len() ==> (
            #[trigger] c.cpuid_modifiers[j].modifiers[p]).register
                != c.cpuid_modifiers[j].modifiers[i].register,
        forall|m: int, p: int|
            j < m < c.cpuid_modifiers.len() && leaf_key(c.cpuid_modifiers[m]) == Some(key) && 0 <= p
                < c.cpuid_modifiers[m].modifiers.len() ==> (
            #[trigger] c.cpuid_modifiers[m].modifiers[p]).register
                != c.cpuid_modifiers[j].modifiers[i].register,
    ensures
        register_bits(c, key, c.cpuid_modifiers[j].modifiers[i].register) == bitmap_u32(
            c.cpuid_modifiers[j].modifiers[i].bitmap,
        ),
{
    last_leaf_register(c, key, j, i, c.cpuid_modifiers.len() as int);
}

proof fn last_msr_entry(mods: Seq<MsrModel>, j: int, k: int)
    requires
        0 <= j < k <= mods.len(),
        hex_u32(mods[j].addr) is Some,
        forall|p: int|
            j < p < k ==> hex_u32((#[trigger] mods[p]).addr) != hex_u32(mods[j].addr),
    ensures
        msr_entry(mods, hex_u32(mods[j].addr)->0, k) == bitmap_u64(mods[j].bitmap),
    decreases k,
{
    if j < k - 1 {
        assert(hex_u32(mods[k - 1].addr) != hex_u32(mods[j].addr));
        last_msr_entry(mods, j, k - 1);
    }
}

proof fn absent_msr_entry(mods: Seq<MsrModel>, addr: u32, k: int)
    requires
        0 <= k <= mods.len(),
        forall|p: int| 0 <= p < k ==> hex_u32((#[trigger] mods[p]).addr) != Some(addr),
    ensures
        msr_entry(mods, addr, k) is None,
    decreases k,
{
    if k > 0 {
        absent_msr_entry(mods, addr, k - 1);
    }
}

/// Of several entries for one MSR the last counts, and a config says nothing of an address that it
/// does not list.
pub proof fn the_last_msr_entry_counts(c: ConfigModel, j: int, addr: u32)
    ensures
        0 <= j < c.msr_modifiers.len() && hex_u32(c.msr_modifiers[j].addr) == Some(addr) && (
        forall|p: int|
            j < p < c.msr_modifiers.len() ==> hex_u32((#[trigger] c.msr_modifiers[p]).addr) != Some(
                addr,
            )) ==> msr_bits(c, addr) == bitmap_u64(c.msr_modifiers[j].bitmap),
        (forall|p: int|
            0 <= p < c.msr_modifiers.len() ==> hex_u32((#[trigger] c.msr_modifiers[p]).addr) != Some(
                addr,
            )) ==> msr_bits(c, addr) is None,
{
    if 0 <= j < c.msr_modifiers.len() && hex_u32(c.msr_modifiers[j].addr) == Some(addr) && (forall|
        p: int,
    |
        j < p < c.msr_modifiers.len() ==> hex_u32((#[trigger] c.msr_modifiers[p]).addr) != Some(
            addr,
        )) {
        last_msr_entry(c.msr_modifiers, j, c.msr_modifiers.len() as int);
    }
    if forall|p: int|
        0 <= p < c.msr_modifiers.len() ==> hex_u32((#[trigger] c.msr_modifiers[p]).addr) != Some(
            addr,
        ) {
        absent_msr_entry(c.msr_modifiers, addr, c.msr_modifiers.len() as int);
    }
}

// ---- what does not parse ----

proof fn registers_parse_without_fault(
    config: int,
    modifier: int,
    registers: Seq<RegisterModel>,
    k: int,
)
    requires
        0 <= k <= registers.len(),
    ensures
        register_fault(config, modifier, registers, k) is None <==> forall|i: int|
            0 <= i < k ==> bitmap_u32((#[trigger] registers[i]).bitmap) is Some,
    decreases k,
{
    if k > 0 {
        registers_parse_without_fault(config, modifier, registers, k - 1);
    }
}

/// Whether every number in a CPUID modifier parses.
pub open spec fn cpuid_parses(m: CpuidModel) -> bool {
    &&& hex_u32(m.leaf) is Some
    &&& hex_u32(m.subleaf) is Some
    &&& forall|i: int|
        0 <= i < m.modifiers.len() ==> bitmap_u32((#[trigger] m.modifiers[i]).bitmap) is Some
}

/// Whether every number in an MSR modifier parses.
pub open spec fn msr_parses(m: MsrModel) -> bool {
    hex_u32(m.addr) is Some && bitmap_u64(m.bitmap) is Some
}

proof fn modifiers_parse_without_fault(config: int, mods: Seq<CpuidModel>, k: int)
    requires
        0 <= k <= mods.len(),
    ensures
        modifiers_fault(config, mods, k) is None <==> forall|j: int|
            0 <= j < k ==> cpuid_parses(#[trigger] mods[j]),
    decreases k,
{
    if k > 0 {
        modifiers_parse_without_fault(config, mods, k - 1);
        let m = mods[k - 1];
        registers_parse_without_fault(config, k - 1, m.modifiers, m.modifiers.len() as int);
    }
}

proof fn msrs_parse_without_fault(config: int, mods: Seq<MsrModel>, k: int)
    requires
        0 <= k <= mods.len(),
    ensures
        msrs_fault(config, mods, k) is None <==> forall|j: int|
            0 <= j < k ==> msr_parses(#[trigger] mods[j]),
    decreases k,
{
    if k > 0 {
        msrs_parse_without_fault(config, mods, k - 1);
    }
}

/// Whether every number in a config parses.
pub open spec fn config_parses(c: ConfigModel) -> bool {
    &&& forall|j: int|
        0 <= j < c.cpuid_modifiers.len() ==> cpuid_parses(#[trigger] c.cpuid_modifiers[j])
    &&& forall|j: int| 0 <= j < c.msr_modifiers.len() ==> msr_parses(#[trigger] c.msr_modifiers[j])
}

proof fn configs_parse_without_fault(configs: Seq<ConfigModel>, k: int)
    requires
        0 <= k <= configs.len(),
    ensures
        cpuid_fault(configs, k) is None && msr_fault(configs, k) is None <==> forall|c: int|
            0 <= c < k ==> config_parses(#[trigger] configs[c]),
    decreases k,
{
    if k > 0 {
        configs_parse_without_fault(configs, k - 1);
        let c = configs[k - 1];
        modifiers_parse_without_fault(
            k - 1,
            c.cpuid_modifiers,
            c.cpuid_modifiers.len() as int,
        );
        msrs_parse_without_fault(k - 1, c.msr_modifiers, c.msr_modifiers.len() as int);
    }
}

proof fn texts_parse_without_fault(configs: Seq<Option<CpuConfig>>, k: int)
    requires
        0 <= k <= configs.len(),
    ensures
        parse_fault(configs, k) is None <==> forall|c: int|
            0 <= c < k ==> (#[trigger] configs[c]) is Some,
    decreases k,
{
    if k > 0 {
        texts_parse_without_fault(configs, k - 1);
    }
}

/// Configs intersect exactly where everything in them parses: every text is a config, every leaf,
/// subleaf and address a hexadecimal number of 32 bits, and every bitmap a binary number of its
/// width. One number anywhere that does not parse is enough to refuse them.
pub proof fn configs_intersect_where_everything_parses(configs: Seq<Option<CpuConfig>>)
    ensures
        intersection_fault(configs) is None <==> forall|c: int|
            0 <= c < configs.len() ==> (#[trigger] configs[c]) is Some && config_parses(
                configs[c]->0@,
            ),
{
    let n = configs.len() as int;
    let models = parsed_models(configs);
    texts_parse_without_fault(configs, n);
    configs_parse_without_fault(models, n);
    if intersection_fault(configs) is None {
        assert forall|c: int| 0 <= c < configs.len() implies (#[trigger] configs[c]) is Some
            && config_parses(configs[c]->0@) by {
            assert(models[c] == configs[c]->0@);
            assert(config_parses(models[c]));
        }
    }
    if forall|c: int|
        0 <= c < configs.len() ==> (#[trigger] configs[c]) is Some && config_parses(configs[c]->0@) {
        assert forall|c: int| 0 <= c < models.len() implies config_parses(
            #[trigger] models[c],
        ) by {
            assert(configs[c] is Some);
        }
    }
}

proof fn first_text_fault(configs: Seq<Option<CpuConfig>>, c: int, n: int)
    requires
        0 <= c < n <= configs.len(),
        configs[c] is None,
        forall|d: int| 0 <= d < c ==> (#[trigger] configs[d]) is Some,
    ensures
        parse_fault(configs, n) == Some(CpuTemplateError::ParseConfig { config: c as usize }),
    decreases n,
{
    if n == c + 1 {
        texts_parse_without_fault(configs, c);
    } else {
        first_text_fault(configs, c, n - 1);
    }
}

proof fn first_register_fault(
    config: int,
    modifier: int,
    registers: Seq<RegisterModel>,
    q: int,
    n: int,
)
    requires
        0 <= q < n <= registers.len(),
        bitmap_u32(registers[q].bitmap) is None,
        forall|i: int| 0 <= i < q ==> bitmap_u32((#[trigger] registers[i]).bitmap) is Some,
    ensures
        register_fault(config, modifier, registers, n) == Some(
            CpuTemplateError::CpuidBitmap {
                config: config as usize,
                modifier: modifier as usize,
                register: q as usize,
            },
        ),
    decreases n,
{
    if n == q + 1 {
        registers_parse_without_fault(config, modifier, registers, q);
    } else {
        first_register_fault(config, modifier, registers, q, n - 1);
    }
}

proof fn first_modifier_fault(config: int, mods: Seq<CpuidModel>, k: int, n: int)
    requires
        0 <= k < n <= mods.len(),
        !cpuid_parses(mods[k]),
        forall|j: int| 0 <= j < k ==> cpuid_parses(#[trigger] mods[j]),
    ensures
        modifiers_fault(config, mods, n) == modifier_fault(config, k, mods[k]),
        modifier_fault(config, k, mods[k]) is Some,
    decreases n,
{
    let m = mods[k];
    registers_parse_without_fault(config, k, m.modifiers, m.modifiers.len() as int);
    if n == k + 1 {
        modifiers_parse_without_fault(config, mods, k);
    } else {
        first_modifier_fault(config, mods, k, n - 1);
    }
}

proof fn cpuids_parse_without_fault(configs: Seq<ConfigModel>, k: int)
    requires
        0 <= k <= configs.len(),
        forall|c: int, j: int|
            0 <= c < k && 0 <= j < configs[c].cpuid_modifiers.len() ==> cpuid_parses(
                #[trigger] configs[c].cpuid_modifiers[j],
            ),
    ensures
        cpuid_fault(configs, k) is None,
    decreases k,
{
    if k > 0 {
        cpuids_parse_without_fault(configs, k - 1);
        let mods = configs[k - 1].cpuid_modifiers;
        modifiers_parse_without_fault(k - 1, mods, mods.len() as int);
    }
}

proof fn all_msrs_parse_without_fault(configs: Seq<ConfigModel>, k: int)
    requires
        0 <= k <= configs.len(),
        forall|c: int, j: int|
            0 <= c < k && 0 <= j < configs[c].msr_modifiers.len() ==> msr_parses(
                #[trigger] configs[c].msr_modifiers[j],
            ),
    ensures
        msr_fault(configs, k) is None,
    decreases k,
{
    if k > 0 {
        all_msrs_parse_without_fault(configs, k - 1);
        let mods = configs[k - 1].msr_modifiers;
        msrs_parse_without_fault(k - 1, mods, mods.len() as int);
    }
}

proof fn first_cpuid_fault(configs: Seq<ConfigModel>, c: int, k: int, n: int)
    requires
        0 <= c < n <= configs.len(),
        0 <= k < configs[c].cpuid_modifiers.len(),
        !cpuid_parses(configs[c].cpuid_modifiers[k]),
        forall|j: int| 0 <= j < k ==> cpuid_parses(#[trigger] configs[c].cpuid_modifiers[j]),
        forall|d: int, j: int|
            0 <= d < c && 0 <= j < configs[d].cpuid_modifiers.len() ==> cpuid_parses(
                #[trigger] configs[d].cpuid_modifiers[j],
            ),
    ensures
        cpuid_fault(configs, n) == modifier_fault(c, k, configs[c].cpuid_modifiers[k]),
        modifier_fault(c, k, configs[c].cpuid_modifiers[k]) is Some,
    decreases n,
{
    let mods = configs[c].cpuid_modifiers;
    first_modifier_fault(c, mods, k, mods.len() as int);
    if n == c + 1 {
        cpuids_parse_without_fault(configs, c);
    } else {
        first_cpuid_fault(configs, c, k, n - 1);
    }
}

proof fn first_msr_of_config(config: int, mods: Seq<MsrModel>, k: int, n: int)
    requires
        0 <= k < n <= mods.len(),
        !msr_parses(mods[k]),
        forall|j: int| 0 <= j < k ==> msr_parses(#[trigger] mods[j]),
    ensures
        hex_u32(mods[k].addr) is None ==> msrs_fault(config, mods, n) == Some(
            CpuTemplateError::MsrAddr { config: config as usize, modifier: k as usize },
        ),
        hex_u32(mods[k].addr) is Some ==> msrs_fault(config, mods, n) == Some(
            CpuTemplateError::MsrBitmap { config: config as usize, modifier: k as usize },
        ),
    decreases n,
{
    if n == k + 1 {
        msrs_parse_without_fault(config, mods, k);
    } else {
        first_msr_of_config(config, mods, k, n - 1);
    }
}

proof fn first_msr_fault(configs: Seq<ConfigModel>, c: int, k: int, n: int)
    requires
        0 <= c < n <= configs.len(),
        0 <= k < configs[c].msr_modifiers.len(),
        !msr_parses(configs[c].msr_modifiers[k]),
        forall|j: int| 0 <= j < k ==> msr_parses(#[trigger] configs[c].msr_modifiers[j]),
        forall|d: int, j: int|
            0 <= d < c && 0 <= j < configs[d].msr_modifiers.len() ==> msr_parses(
                #[trigger] configs[d].msr_modifiers[j],
            ),
    ensures
        hex_u32(configs[c].msr_modifiers[k].addr) is None ==> msr_fault(configs, n) == Some(
            CpuTemplateError::MsrAddr { config: c as usize, modifier: k as usize },
        ),
        hex_u32(configs[c].msr_modifiers[k].addr) is Some ==> msr_fault(configs, n) == Some(
            CpuTemplateError::MsrBitmap { config: c as usize, modifier: k as usize },
        ),
    decreases n,
{
    let mods = configs[c].msr_modifiers;
    first_msr_of_config(c, mods, k, mods.len() as int);
    if n == c + 1 {
        all_msrs_parse_without_fault(configs, c);
    } else {
        first_msr_fault(configs, c, k, n - 1);
    }
}

/// Where a text is no config, the first such text is what is reported, whatever else is wrong.
pub proof fn unreadable_texts_are_reported_first(configs: Seq<Option<CpuConfig>>, c: int)
    requires
        0 <= c < configs.len(),
        configs[c] is None,
        forall|d: int| 0 <= d < c ==> (#[trigger] configs[d]) is Some,
    ensures
        intersection_fault(configs) == Some(CpuTemplateError::ParseConfig { config: c as usize }),
{
    first_text_fault(configs, c, configs.len() as int);
}

/// Where every text is a config, the first CPUID modifier that does not parse is reported, in the
/// order of the configs and of their modifiers and before any MSR modifier: by its leaf, else by its
/// subleaf, else by the first of its bitmaps that does not parse.
pub proof fn the_first_bad_cpuid_is_reported(
    configs: Seq<Option<CpuConfig>>,
    c: int,
    k: int,
    q: int,
)
    requires
        forall|d: int| 0 <= d < configs.len() ==> (#[trigger] configs[d]) is Some,
        0 <= c < configs.len(),
        0 <= k < configs[c]->0@.cpuid_modifiers.len(),
        !cpuid_parses(configs[c]->0@.cpuid_modifiers[k]),
        forall|j: int|
            0 <= j < k ==> cpuid_parses(#[trigger] configs[c]->0@.cpuid_modifiers[j]),
        forall|d: int, j: int|
            0 <= d < c && 0 <= j < configs[d]->0@.cpuid_modifiers.len() ==> cpuid_parses(
                #[trigger] configs[d]->0@.cpuid_modifiers[j],
            ),
    ensures
        hex_u32(configs[c]->0@.cpuid_modifiers[k].leaf) is None ==> intersection_fault(configs)
            == Some(CpuTemplateError::CpuidLeaf { config: c as usize, modifier: k as usize }),
        hex_u32(configs[c]->0@.cpuid_modifiers[k].leaf) is Some && hex_u32(
            configs[c]->0@.cpuid_modifiers[k].subleaf,
        ) is None ==> intersection_fault(configs) == Some(
            CpuTemplateError::CpuidSubleaf { config: c as usize, modifier: k as usize },
        ),
        hex_u32(configs[c]->0@.cpuid_modifiers[k].leaf) is Some && hex_u32(
            configs[c]->0@.cpuid_modifiers[k].subleaf,
        ) is Some && 0 <= q < configs[c]->0@.cpuid_modifiers[k].modifiers.len() && bitmap_u32(
            configs[c]->0@.cpuid_modifiers[k].modifiers[q].bitmap,
        ) is None && (forall|i: int|
            0 <= i < q ==> bitmap_u32(
                (#[trigger] configs[c]->0@.cpuid_modifiers[k].modifiers[i]).bitmap,
            ) is Some) ==> intersection_fault(configs) == Some(
            CpuTemplateError::CpuidBitmap {
                config: c as usize,
                modifier: k as usize,
                register: q as usize,
            },
        ),
{
    let n = configs.len() as int;
    let models = parsed_models(configs);
    texts_parse_without_fault(configs, n);
    assert(models[c] == configs[c]->0@);
    assert forall|d: int, j: int|
        0 <= d < c && 0 <= j < models[d].cpuid_modifiers.len() implies cpuid_parses(
        #[trigger] models[d].cpuid_modifiers[j],
    ) by {
        assert(models[d] == configs[d]->0@);
    }
    first_cpuid_fault(models, c, k, n);
    let m = configs[c]->0@.cpuid_modifiers[k];
    if hex_u32(m.leaf) is Some && hex_u32(m.subleaf) is Some && 0 <= q < m.modifiers.len()
        && bitmap_u32(m.modifiers[q].bitmap) is None && (forall|i: int|
        0 <= i < q ==> bitmap_u32((#[trigger] m.modifiers[i]).bitmap) is Some) {
        first_register_fault(c, k, m.modifiers, q, m.modifiers.len() as int);
    }
}

/// Where every text is a config and every CPUID modifier parses, the first MSR modifier that does
/// not is reported: by its address, else by its bitmap.
pub proof fn the_first_bad_msr_is_reported(configs: Seq<Option<CpuConfig>>, c: int, k: int)
    requires
        forall|d: int| 0 <= d < configs.len() ==> (#[trigger] configs[d]) is Some,
        forall|d: int, j: int|
            0 <= d < configs.len() && 0 <= j < configs[d]->0@.cpuid_modifiers.len()
                ==> cpuid_parses(#[trigger] configs[d]->0@.cpuid_modifiers[j]),
        0 <= c < configs.len(),
        0 <= k < configs[c]->0@.msr_modifiers.len(),
        !msr_parses(configs[c]->0@.msr_modifiers[k]),
        forall|j: int| 0 <= j < k ==> msr_parses(#[trigger] configs[c]->0@.msr_modifiers[j]),
        forall|d: int, j: int|
            0 <= d < c && 0 <= j < configs[d]->0@.msr_modifiers.len() ==> msr_parses(
                #[trigger] configs[d]->0@.msr_modifiers[j],
            ),
    ensures
        hex_u32(configs[c]->0@.msr_modifiers[k].addr) is None ==> intersection_fault(configs)
            == Some(CpuTemplateError::MsrAddr { config: c as usize, modifier: k as usize }),
        hex_u32(configs[c]->0@.msr_modifiers[k].addr) is Some ==> intersection_fault(configs)
            == Some(CpuTemplateError::MsrBitmap { config: c as usize, modifier: k as usize }),
{
    let n = configs.len() as int;
    let models = parsed_models(configs);
    texts_parse_without_fault(configs, n);
    assert(models[c] == configs[c]->0@);
    assert forall|d: int, j: int|
        0 <= d < n && 0 <= j < models[d].cpuid_modifiers.len() implies cpuid_parses(
        #[trigger] models[d].cpuid_modifiers[j],
    ) by {
        assert(models[d] == configs[d]->0@);
    }
    assert forall|d: int, j: int|
        0 <= d < c && 0 <= j < models[d].msr_modifiers.len() implies msr_parses(
        #[trigger] models[d].msr_modifiers[j],
    ) by {
        assert(models[d] == configs[d]->0@);
    }
    cpuids_parse_without_fault(models, n);
    first_msr_fault(models, c, k, n);
}

/// What each error says: the number of the config, and the modifier as the config spells it.
pub proof fn errors_spell_the_place(
    configs: Seq<Option<CpuConfig>>,
    config: usize,
    modifier: usize,
    register: usize,
    c: ConfigModel,
)
    requires
        config < configs.len(),
        configs[config as int] is Some,
        configs[config as int]->0@ == c,
    ensures
        error_text(CpuTemplateError::ParseConfig { config }, configs) == Some(
            "parse config "@ + decimal_text(config as nat),
        ),
        modifier < c.cpuid_modifiers.len() ==> error_text(
            CpuTemplateError::CpuidLeaf { config, modifier },
            configs,
        ) == Some(
            "config "@ + decimal_text(config as nat) + " cpuid "@
                + c.cpuid_modifiers[modifier as int].leaf + "/"@
                + c.cpuid_modifiers[modifier as int].subleaf,
        ),
        modifier < c.cpuid_modifiers.len() ==> error_text(
            CpuTemplateError::CpuidSubleaf { config, modifier },
            configs,
        ) == Some(
            "config "@ + decimal_text(config as nat) + " cpuid "@
                + c.cpuid_modifiers[modifier as int].leaf + "/"@
                + c.cpuid_modifiers[modifier as int].subleaf,
        ),
        modifier < c.cpuid_modifiers.len() && register
            < c.cpuid_modifiers[modifier as int].modifiers.len() ==> error_text(
            CpuTemplateError::CpuidBitmap { config, modifier, register },
            configs,
        ) == Some(
            "config "@ + decimal_text(config as nat) + " cpuid "@
                + c.cpuid_modifiers[modifier as int].leaf + " "@
                + c.cpuid_modifiers[modifier as int].modifiers[register as int].register
                + " bitmap"@,
        ),
        modifier < c.msr_modifiers.len() ==> error_text(
            CpuTemplateError::MsrAddr { config, modifier },
            configs,
        ) == Some(
            "config "@ + decimal_text(config as nat) + " msr addr "@ + quoted_text(
                c.msr_modifiers[modifier as int].addr,
            ),
        ),
        modifier < c.msr_modifiers.len() ==> error_text(
            CpuTemplateError::MsrBitmap { config, modifier },
            configs,
        ) == Some(
            "config "@ + decimal_text(config as nat) + " msr "@
                + c.msr_modifiers[modifier as int].addr + " bitmap"@,
        ),
{
}

} // verus!
