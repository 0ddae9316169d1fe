//! The JSON text of a CPU config, in stable field order.

use crate::ids::hex_char;
use crate::node_registry::cpu_template::{
    texts, ConfigModel, CpuConfig, CpuidModel, CpuidModifier, MsrModel, MsrModifier, RegisterMod,
    RegisterModel,
};
use crate::text::{decimal_text, signed_decimal, signed_decimal_text};
use vstd::prelude::*;
use vstd::string::*;

verus! {

/// A character as it stands in a JSON string: quotes, backslashes and control characters are
/// escaped.
pub open spec fn json_escape(c: char) -> Seq<char> {
    if c == '"' || c == '\\' {
        seq!['\\', c]
    } else if c == '\u{8}' {
        seq!['\\', 'b']
    } else if c == '\u{c}' {
        seq!['\\', 'f']
    } else if c == '\n' {
        seq!['\\', 'n']
    } else if c == '\r' {
        seq!['\\', 'r']
    } else if c == '\t' {
        seq!['\\', 't']
    } else if 32 > c as int {
        seq!['\\', 'u', '0', '0', hex_char(c as int / 16), hex_char(c as int % 16)]
    } else {
        seq![c]
    }
}

/// The characters of a text, each as it stands in a JSON string.
pub open spec fn json_escaped(text: Seq<char>) -> Seq<char>
    decreases text.len(),
{
    if text.len() == 0 {
        Seq::empty()
    } else {
        json_escaped(text.drop_last()) + json_escape(text.last())
    }
}

/// The JSON string of a text.
pub open spec fn json_string_text(text: Seq<char>) -> Seq<char> {
    seq!['"'] + json_escaped(text) + seq!['"']
}

/// `serde_json::to_string` on a string: the text in quotes, with quotes, backslashes and control
/// characters escaped, the latter by a letter where JSON has one and by their number otherwise.
#[verifier::external_body]
fn json_string(text: &str) -> (r: String)
    ensures
        r@ == json_string_text(text@),
{
    serde_json::to_string(text).unwrap()
}

/// The first `k` texts, with commas between them.
pub open spec fn listed(items: Seq<Seq<char>>, k: int) -> Seq<char>
    decreases k,
{
    if k <= 0 {
        Seq::empty()
    } else if k == 1 {
        items[0]
    } else {
        listed(items, k - 1) + ","@ + items[k - 1]
    }
}

/// The object of a register whose texts are JSON strings.
pub open spec fn register_object(r: RegisterModel) -> Seq<char> {
    "{\"register\":"@ + r.register + ",\"bitmap\":"@ + r.bitmap + "}"@
}

/// The objects of registers.
pub open spec fn register_objects(s: Seq<RegisterModel>) -> Seq<Seq<char>> {
    Seq::new(s.len(), |i: int| register_object(s[i]))
}

/// The object of a CPUID modifier whose texts are JSON strings.
pub open spec fn cpuid_object(m: CpuidModel) -> Seq<char> {
    "{\"leaf\":"@ + m.leaf + ",\"subleaf\":"@ + m.subleaf + ",\"flags\":"@ + signed_decimal_text(
        m.flags as int,
    ) + ",\"modifiers\":["@ + listed(register_objects(m.modifiers), m.modifiers.len() as int)
        + "]}"@
}

/// The objects of CPUID modifiers.
pub open spec fn cpuid_objects(s: Seq<CpuidModel>) -> Seq<Seq<char>> {
    Seq::new(s.len(), |i: int| cpuid_object(s[i]))
}

/// The object of an MSR modifier whose texts are JSON strings.
pub open spec fn msr_object(m: MsrModel) -> Seq<char> {
    "{\"addr\":"@ + m.addr + ",\"bitmap\":"@ + m.bitmap + "}"@
}

/// The objects of MSR modifiers.
pub open spec fn msr_objects(s: Seq<MsrModel>) -> Seq<Seq<char>> {
    Seq::new(s.len(), |i: int| msr_object(s[i]))
}

/// The object of a config whose texts are JSON strings. Empty lists are arrays.
pub open spec fn config_object(c: ConfigModel) -> Seq<char> {
    "{\"kvm_capabilities\":["@ + listed(c.kvm_capabilities, c.kvm_capabilities.len() as int)
        + "],\"cpuid_modifiers\":["@ + listed(
        cpuid_objects(c.cpuid_modifiers),
        c.cpuid_modifiers.len() as int,
    ) + "],\"msr_modifiers\":["@ + listed(
        msr_objects(c.msr_modifiers),
        c.msr_modifiers.len() as int,
    ) + "]}"@
}

/// A register with its texts as JSON strings.
pub open spec fn quoted_register(r: RegisterModel) -> RegisterModel {
    RegisterModel { register: json_string_text(r.register), bitmap: json_string_text(r.bitmap) }
}

/// A CPUID modifier with its texts as JSON strings.
pub open spec fn quoted_cpuid(m: CpuidModel) -> CpuidModel {
    CpuidModel {
        leaf: json_string_text(m.leaf),
        subleaf: json_string_text(m.subleaf),
        flags: m.flags,
        modifiers: Seq::new(m.modifiers.len(), |i: int| quoted_register(m.modifiers[i])),
    }
}

/// An MSR modifier with its texts as JSON strings.
pub open spec fn quoted_msr(m: MsrModel) -> MsrModel {
    MsrModel { addr: json_string_text(m.addr), bitmap: json_string_text(m.bitmap) }
}

/// A config with its texts as JSON strings.
pub open spec fn quoted_config(c: ConfigModel) -> ConfigModel {
    ConfigModel {
        kvm_capabilities: Seq::new(
            c.kvm_capabilities.len(),
            |i: int| json_string_text(c.kvm_capabilities[i]),
        ),
        cpuid_modifiers: Seq::new(
            c.cpuid_modifiers.len(),
            |i: int| quoted_cpuid(c.cpuid_modifiers[i]),
        ),
        msr_modifiers: Seq::new(c.msr_modifiers.len(), |i: int| quoted_msr(c.msr_modifiers[i])),
    }
}

/// The JSON text of a config.
pub open spec fn config_json(c: ConfigModel) -> Seq<char> {
    config_object(quoted_config(c))
}

/// A list is written item by item: nothing for none, an item alone for one, and each further item
/// after a comma.
pub proof fn lists_are_written_item_by_item(items: Seq<Seq<char>>, x: Seq<char>)
    ensures
        listed(items, 0).len() == 0,
        listed(seq![x], 1) == x,
        items.len() > 0 ==> listed(items.push(x), items.len() as int + 1) == listed(
            items,
            items.len() as int,
        ) + seq![','] + x,
{
    reveal_strlit(",");
    assert(","@ =~= seq![',']);
    if items.len() > 0 {
        listing_looks_no_further(items, x, items.len() as int);
    }
}

proof fn listing_looks_no_further(items: Seq<Seq<char>>, x: Seq<char>, k: int)
    requires
        0 <= k <= items.len(),
    ensures
        listed(items.push(x), k) == listed(items, k),
    decreases k,
{
    if k > 1 {
        listing_looks_no_further(items, x, k - 1);
    }
}

/// The members of every object stand in their stable order, each under its own name, with its own
/// value as JSON.
pub proof fn members_stand_in_order(c: ConfigModel, m: CpuidModel, r: RegisterModel, s: MsrModel)
    ensures
        config_json(c) == "{\"kvm_capabilities\":["@ + listed(
            Seq::new(c.kvm_capabilities.len(), |i: int| json_string_text(c.kvm_capabilities[i])),
            c.kvm_capabilities.len() as int,
        ) + "],\"cpuid_modifiers\":["@ + listed(
            Seq::new(
                c.cpuid_modifiers.len(),
                |i: int| cpuid_object(quoted_cpuid(c.cpuid_modifiers[i])),
            ),
            c.cpuid_modifiers.len() as int,
        ) + "],\"msr_modifiers\":["@ + listed(
            Seq::new(c.msr_modifiers.len(), |i: int| msr_object(quoted_msr(c.msr_modifiers[i]))),
            c.msr_modifiers.len() as int,
        ) + "]}"@,
        cpuid_object(quoted_cpuid(m)) == "{\"leaf\":"@ + json_string_text(m.leaf)
            + ",\"subleaf\":"@ + json_string_text(m.subleaf) + ",\"flags\":"@ + (if m.flags < 0 {
            seq!['-'] + decimal_text((-m.flags) as nat)
        } else {
            decimal_text(m.flags as nat)
        }) + ",\"modifiers\":["@ + listed(
            Seq::new(
                m.modifiers.len(),
                |i: int| register_object(quoted_register(m.modifiers[i])),
            ),
            m.modifiers.len() as int,
        ) + "]}"@,
        register_object(quoted_register(r)) == "{\"register\":"@ + json_string_text(r.register)
            + ",\"bitmap\":"@ + json_string_text(r.bitmap) + "}"@,
        msr_object(quoted_msr(s)) == "{\"addr\":"@ + json_string_text(s.addr) + ",\"bitmap\":"@
            + json_string_text(s.bitmap) + "}"@,
{
    let q = quoted_config(c);
    assert(q.kvm_capabilities =~= Seq::new(
        c.kvm_capabilities.len(),
        |i: int| json_string_text(c.kvm_capabilities[i]),
    ));
    assert(cpuid_objects(q.cpuid_modifiers) =~= Seq::new(
        c.cpuid_modifiers.len(),
        |i: int| cpuid_object(quoted_cpuid(c.cpuid_modifiers[i])),
    ));
    assert(msr_objects(q.msr_modifiers) =~= Seq::new(
        c.msr_modifiers.len(),
        |i: int| msr_object(quoted_msr(c.msr_modifiers[i])),
    ));
    assert(register_objects(quoted_cpuid(m).modifiers) =~= Seq::new(
        m.modifiers.len(),
        |i: int| register_object(quoted_register(m.modifiers[i])),
    ));
}

/// Lists texts with commas between them.
fn list_texts(items: &Vec<String>) -> (r: String)
    ensures
        r@ == listed(texts(items@), items@.len() as int),
{
    let mut out = String::new();
    let mut i: usize = 0;
    while i < items.len()
        invariant
            i <= items@.len(),
            out@ == listed(texts(items@), i as int),
        decreases items@.len() - i,
    {
        if i > 0 {
            out.append(",");
        }
        out.append(items[i].as_str());
        proof {
            assert(texts(items@)[i as int] == items@[i as int]@);
            if i == 0 {
                assert(out@ =~= items@[0]@);
            }
        }
        i = i + 1;
    }
    out
}

fn frame_register(r: &RegisterMod) -> (out: String)
    ensures
        out@ == register_object(r@),
{
    let mut out = "{\"register\":".to_owned();
    out.append(r.register.as_str());
    out.append(",\"bitmap\":");
    out.append(r.bitmap.as_str());
    out.append("}");
    out
}

fn frame_cpuid(m: &CpuidModifier) -> (out: String)
    ensures
        out@ == cpuid_object(m@),
{
    let mut objects: Vec<String> = Vec::new();
    let mut i: usize = 0;
    while i < m.modifiers.len()
        invariant
            i <= m.modifiers@.len(),
            texts(objects@) =~= register_objects(m@.modifiers).take(i as int),
        decreases m.modifiers@.len() - i,
    {
        let ghost before = objects@;
        objects.push(frame_register(&m.modifiers[i]));
        proof {
            assert(m@.modifiers[i as int] == m.modifiers@[i as int]@);
            assert(texts(objects@) =~= texts(before).push(
                register_objects(m@.modifiers)[i as int],
            ));
        }
        i = i + 1;
    }
    proof {
        assert(register_objects(m@.modifiers).take(i as int) =~= register_objects(m@.modifiers));
        assert(objects@.len() == texts(objects@).len());
    }
    let mut out = "{\"leaf\":".to_owned();
    out.append(m.leaf.as_str());
    out.append(",\"subleaf\":");
    out.append(m.subleaf.as_str());
    out.append(",\"flags\":");
    out.append(signed_decimal(m.flags).as_str());
    out.append(",\"modifiers\":[");
    out.append(list_texts(&objects).as_str());
    out.append("]}");
    out
}

fn frame_msr(m: &MsrModifier) -> (out: String)
    ensures
        out@ == msr_object(m@),
{
    let mut out = "{\"addr\":".to_owned();
    out.append(m.addr.as_str());
    out.append(",\"bitmap\":");
    out.append(m.bitmap.as_str());
    out.append("}");
    out
}

/// The JSON text of a config whose texts are JSON strings already.
pub fn frame_config(c: &CpuConfig) -> (out: String)
    ensures
        out@ == config_object(c@),
{
    let mut leaves: Vec<String> = Vec::new();
    let mut i: usize = 0;
    while i < c.cpuid_modifiers.len()
        invariant
            i <= c.cpuid_modifiers@.len(),
            texts(leaves@) =~= cpuid_objects(c@.cpuid_modifiers).take(i as int),
        decreases c.cpuid_modifiers@.len() - i,
    {
        let ghost before = leaves@;
        leaves.push(frame_cpuid(&c.cpuid_modifiers[i]));
        proof {
            assert(c@.cpuid_modifiers[i as int] == c.cpuid_modifiers@[i as int]@);
            assert(texts(leaves@) =~= texts(before).push(
                cpuid_objects(c@.cpuid_modifiers)[i as int],
            ));
        }
        i = i + 1;
    }
    let mut msrs: Vec<String> = Vec::new();
    let mut j: usize = 0;
    while j < c.msr_modifiers.len()
        invariant
            j <= c.msr_modifiers@.len(),
            texts(msrs@) =~= msr_objects(c@.msr_modifiers).take(j as int),
        decreases c.msr_modifiers@.len() - j,
    {
        let ghost before = msrs@;
        msrs.push(frame_msr(&c.msr_modifiers[j]));
        proof {
            assert(c@.msr_modifiers[j as int] == c.msr_modifiers@[j as int]@);
            assert(texts(msrs@) =~= texts(before).push(msr_objects(c@.msr_modifiers)[j as int]));
        }
        j = j + 1;
    }
    proof {
        assert(cpuid_objects(c@.cpuid_modifiers).take(i as int) =~= cpuid_objects(
            c@.cpuid_modifiers,
        ));
        assert(msr_objects(c@.msr_modifiers).take(j as int) =~= msr_objects(c@.msr_modifiers));
        assert(leaves@.len() == texts(leaves@).len());
        assert(msrs@.len() == texts(msrs@).len());
    }
    let mut out = "{\"kvm_capabilities\":[".to_owned();
    out.append(list_texts(&c.kvm_capabilities).as_str());
    out.append("],\"cpuid_modifiers\":[");
    out.append(list_texts(&leaves).as_str());
    out.append("],\"msr_modifiers\":[");
    out.append(list_texts(&msrs).as_str());
    out.append("]}");
    out
}

fn quote_cpuid(m: &CpuidModifier) -> (r: CpuidModifier)
    ensures
        r@ == quoted_cpuid(m@),
{
    let mut modifiers: Vec<RegisterMod> = Vec::new();
    let mut i: usize = 0;
    while i < m.modifiers.len()
        invariant
            i <= m.modifiers@.len(),
            modifiers@.len() == i,
            forall|k: int|
                0 <= k < i ==> (#[trigger] modifiers@[k])@ == quoted_register(m@.modifiers[k]),
        decreases m.modifiers@.len() - i,
    {
        modifiers.push(
            RegisterMod {
                register: json_string(m.modifiers[i].register.as_str()),
                bitmap: json_string(m.modifiers[i].bitmap.as_str()),
            },
        );
        i = i + 1;
    }
    let r = CpuidModifier {
        leaf: json_string(m.leaf.as_str()),
        subleaf: json_string(m.subleaf.as_str()),
        flags: m.flags,
        modifiers,
    };
    proof {
        assert(r@.modifiers =~= quoted_cpuid(m@).modifiers);
    }
    r
}

/// A config with its texts as JSON strings.
fn quote_config(c: &CpuConfig) -> (r: CpuConfig)
    ensures
        r@ == quoted_config(c@),
{
    let mut kvm_capabilities: Vec<String> = Vec::new();
    let mut i: usize = 0;
    while i < c.kvm_capabilities.len()
        invariant
            i <= c.kvm_capabilities@.len(),
            kvm_capabilities@.len() == i,
            forall|k: int|
                0 <= k < i ==> (#[trigger] kvm_capabilities@[k])@ == json_string_text(
                    c.kvm_capabilities@[k]@,
                ),
        decreases c.kvm_capabilities@.len() - i,
    {
        kvm_capabilities.push(json_string(c.kvm_capabilities[i].as_str()));
        i = i + 1;
    }
    let mut cpuid_modifiers: Vec<CpuidModifier> = Vec::new();
    let mut j: usize = 0;
    while j < c.cpuid_modifiers.len()
        invariant
            j <= c.cpuid_modifiers@.len(),
            cpuid_modifiers@.len() == j,
            forall|k: int|
                0 <= k < j ==> (#[trigger] cpuid_modifiers@[k])@ == quoted_cpuid(
                    c.cpuid_modifiers@[k]@,
                ),
        decreases c.cpuid_modifiers@.len() - j,
    {
        cpuid_modifiers.push(quote_cpuid(&c.cpuid_modifiers[j]));
        j = j + 1;
    }
    let mut msr_modifiers: Vec<MsrModifier> = Vec::new();
    let mut n: usize = 0;
    while n < c.msr_modifiers.len()
        invariant
            n <= c.msr_modifiers@.len(),
            msr_modifiers@.len() == n,
            forall|k: int|
                0 <= k < n ==> (#[trigger] msr_modifiers@[k])@ == quoted_msr(c.msr_modifiers@[k]@),
        decreases c.msr_modifiers@.len() - n,
    {
        msr_modifiers.push(
            MsrModifier {
                addr: json_string(c.msr_modifiers[n].addr.as_str()),
                bitmap: json_string(c.msr_modifiers[n].bitmap.as_str()),
            },
        );
        n = n + 1;
    }
    let r = CpuConfig { kvm_capabilities, cpuid_modifiers, msr_modifiers };
    proof {
        assert(r@.kvm_capabilities =~= quoted_config(c@).kvm_capabilities);
        assert(r@.cpuid_modifiers =~= quoted_config(c@).cpuid_modifiers);
        assert(r@.msr_modifiers =~= quoted_config(c@).msr_modifiers);
    }
    r
}

/// The JSON text of a config.
pub fn render_config(c: &CpuConfig) -> (r: String)
    ensures
        r@ == config_json(c@),
{
    frame_config(&quote_config(c))
}

/// A JSON string stands in quotes, and its characters stand in their order: a quote or a backslash
/// behind a backslash, a control character as a letter or a number behind one, and any other
/// character as it is.
pub proof fn strings_are_written_character_by_character(text: Seq<char>, c: char)
    ensures
        json_string_text(Seq::empty()) == seq!['"', '"'],
        json_string_text(text.push(c)) == json_string_text(text).drop_last() + json_escape(c)
            + seq!['"'],
        json_string_text(text).first() == '"' && json_string_text(text).last() == '"',
        c >= ' ' && c != '"' && c != '\\' ==> json_escape(c) == seq![c],
        json_escape('"') == seq!['\\', '"'],
        json_escape('\\') == seq!['\\', '\\'],
        json_escape('\n') == seq!['\\', 'n'],
        json_escape('\r') == seq!['\\', 'r'],
        json_escape('\t') == seq!['\\', 't'],
        json_escape('\u{8}') == seq!['\\', 'b'],
        json_escape('\u{c}') == seq!['\\', 'f'],
        c < ' ' && c != '\n' && c != '\r' && c != '\t' && c != '\u{8}' && c != '\u{c}' ==> {
            &&& json_escape(c).len() == 6
            &&& json_escape(c).take(4) == seq!['\\', 'u', '0', '0']
            &&& json_escape(c)[4] == "0123456789abcdef"@[c as int / 16]
            &&& json_escape(c)[5] == "0123456789abcdef"@[c as int % 16]
        },
{
    assert(text.push(c).drop_last() =~= text);
    assert(text.push(c).last() == c);
    let before = json_string_text(text);
    assert(before.drop_last() =~= seq!['"'] + json_escaped(text));
    assert(json_string_text(text.push(c)) =~= before.drop_last() + json_escape(c) + seq!['"']);
}

} // verus!
