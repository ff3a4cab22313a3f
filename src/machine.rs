//! Machine information gathered from the nodes of a flattened device tree.

use std::ops::Range;
use vstd::prelude::*;
use vstd::string::*;

verus! {

/// Number of UART slots in a `MachineInfo`.
pub const MAX_UARTS: usize = 8;
/// Length of the model-name field.
pub const MODEL_LEN: usize = 32;
/// Interrupt number given to the real-time clock.
pub const RTC_IRQ: usize = 0xc;

/// A UART: its MMIO base address and interrupt number.
#[derive(Clone, Copy, PartialEq, Eq, Structural, Debug, Default)]
pub struct UartInfo {
    pub base: usize,
    pub irq: usize,
}

/// The real-time clock: its MMIO range and interrupt number.
#[derive(Debug)]
pub struct RtcInfo {
    pub range: Range<usize>,
    pub irq: usize,
}

/// Machine basic information.
#[derive(Debug)]
pub struct MachineInfo {
    /// Model name, zero-padded.
    pub model: [u8; 32],
    /// Number of CPUs.
    pub smp: usize,
    pub memory: Range<usize>,
    /// The first `uart_count` slots are in use.
    pub uart: [UartInfo; 8],
    pub plic: Range<usize>,
    pub clint: Range<usize>,
    pub rtc: RtcInfo,
    pub uart_count: usize,
}

/// One `reg` entry of a node: a start address and an optional size.
#[derive(Clone, Copy, PartialEq, Eq, Structural, Debug)]
pub struct RegRegion {
    pub start: usize,
    pub size: Option<usize>,
}

/// What the walk reads of a device-tree node: its name, its `reg` entries
/// if it has that property, and the raw `interrupts` property if present.
#[derive(Debug)]
pub struct DtNode {
    pub name: String,
    pub reg: Option<Vec<RegRegion>>,
    pub interrupts: Option<Vec<u8>>,
}

/// The mathematical content of a `MachineInfo`.
pub struct MachineView {
    pub model: Seq<u8>,
    pub smp: nat,
    pub memory: (usize, usize),
    pub uarts: Seq<UartInfo>,
    pub plic: (usize, usize),
    pub clint: (usize, usize),
    pub rtc: (usize, usize),
    pub rtc_irq: usize,
}

impl MachineInfo {
    pub open spec fn view(&self) -> MachineView {
        MachineView {
            model: self.model@,
            smp: self.smp as nat,
            memory: (self.memory.start, self.memory.end),
            uarts: self.uart@.subrange(0, self.uart_count as int),
            plic: (self.plic.start, self.plic.end),
            clint: (self.clint.start, self.clint.end),
            rtc: (self.rtc.range.start, self.rtc.range.end),
            rtc_irq: self.rtc.irq,
        }
    }

    pub open spec fn wf(&self) -> bool {
        self.uart_count <= MAX_UARTS
    }
}

/// The model field for a model name: its first bytes, zero-padded to the
/// field's length.
pub open spec fn model_field(b: Seq<u8>) -> Seq<u8> {
    Seq::new(MODEL_LEN as nat, |i: int| if i < b.len() { b[i] } else { 0u8 })
}

/// Whether `s` begins with `p`.
pub open spec fn has_prefix(s: Seq<char>, p: Seq<char>) -> bool {
    p.len() <= s.len() && s.subrange(0, p.len() as int) == p
}

/// The range that one `reg` entry describes, if it has a size and its end
/// is addressable.
pub open spec fn region_range(r: RegRegion) -> Option<(usize, usize)> {
    match r.size {
        Some(s) => if r.start + s <= usize::MAX {
            Some((r.start, (r.start + s) as usize))
        } else {
            None
        },
        None => None,
    }
}

/// The range that a list of `reg` entries leaves behind, each entry
/// overriding the one before (`init` when there is none); `None` as soon as
/// one entry has no usable range.
pub open spec fn regs_range(regs: Seq<RegRegion>, init: (usize, usize)) -> Option<(usize, usize)>
    decreases regs.len(),
{
    if regs.len() == 0 {
        Some(init)
    } else {
        match regs_range(regs.drop_last(), init) {
            Some(_) => region_range(regs.last()),
            None => None,
        }
    }
}

/// The start address of the last `reg` entry, 0 when there is none.
pub open spec fn last_start(regs: Seq<RegRegion>) -> usize {
    if regs.len() == 0 {
        0
    } else {
        regs.last().start
    }
}

/// A big-endian 32-bit cell.
pub open spec fn be_u32(b: Seq<u8>) -> nat {
    (b[0] as nat) * 0x1000000 + (b[1] as nat) * 0x10000 + (b[2] as nat) * 0x100 + (b[3] as nat)
}

/// The machine after visiting node `n`: memory, PLIC, CLINT and RTC nodes
/// set their range from `reg` (which they must have); a serial or UART node
/// with `reg` takes the next UART slot, with its last base address and its
/// interrupt cell (which it must have); other nodes change nothing. `None`
/// when the node lacks what it must have or no UART slot is left.
pub open spec fn spec_visit(m: MachineView, n: DtNode) -> Option<MachineView> {
    let name = n.name@;
    if has_prefix(name, "memory"@) {
        match n.reg {
            Some(r) => match regs_range(r@, m.memory) {
                Some(g) => Some(MachineView { memory: g, ..m }),
                None => None,
            },
            None => None,
        }
    } else if has_prefix(name, "serial"@) || has_prefix(name, "uart"@) {
        match n.reg {
            Some(r) => match n.interrupts {
                Some(b) => if b@.len() == 4 && m.uarts.len() < MAX_UARTS {
                    Some(
                        MachineView {
                            uarts: m.uarts.push(
                                UartInfo { base: last_start(r@), irq: be_u32(b@) as usize },
                            ),
                            ..m
                        },
                    )
                } else {
                    None
                },
                None => None,
            },
            None => Some(m),
        }
    } else if has_prefix(name, "plic"@) {
        match n.reg {
            Some(r) => match regs_range(r@, m.plic) {
                Some(g) => Some(MachineView { plic: g, ..m }),
                None => None,
            },
            None => None,
        }
    } else if has_prefix(name, "clint"@) {
        match n.reg {
            Some(r) => match regs_range(r@, m.clint) {
                Some(g) => Some(MachineView { clint: g, ..m }),
                None => None,
            },
            None => None,
        }
    } else if has_prefix(name, "rtc"@) {
        match n.reg {
            Some(r) => match regs_range(r@, (0, 0)) {
                Some(g) => Some(MachineView { rtc: g, rtc_irq: RTC_IRQ, ..m }),
                None => None,
            },
            None => None,
        }
    } else {
        Some(m)
    }
}

/// The machine after visiting `nodes` in order from `m`.
pub open spec fn spec_walk(nodes: Seq<DtNode>, m: MachineView) -> Option<MachineView>
    decreases nodes.len(),
{
    if nodes.len() == 0 {
        Some(m)
    } else {
        match spec_walk(nodes.drop_last(), m) {
            Some(m1) => spec_visit(m1, nodes.last()),
            None => None,
        }
    }
}

/// The machine before any node is visited: the model name and CPU count,
/// every range empty, no UART.
pub open spec fn initial_view(model: Seq<u8>, smp: usize) -> MachineView {
    MachineView {
        model: model_field(model),
        smp: smp as nat,
        memory: (0, 0),
        uarts: Seq::empty(),
        plic: (0, 0),
        clint: (0, 0),
        rtc: (0, 0),
        rtc_irq: 0,
    }
}

/// Whether `s` begins with `p`.
pub fn starts_with(s: &str, p: &str) -> (r: bool)
    ensures
        r == has_prefix(s@, p@),
{
    let n = p.unicode_len();
    let m = s.unicode_len();
    if n > m {
        return false;
    }
    let mut i: usize = 0;
    while i < n
        invariant
            0 <= i <= n,
            n <= m,
            n == p@.len(),
            m == s@.len(),
            forall|j: int| 0 <= j < i ==> s@[j] == p@[j],
        decreases n - i,
    {
        if s.get_char(i) != p.get_char(i) {
            assert(s@.subrange(0, n as int)[i as int] != p@[i as int]);
            return false;
        }
        i = i + 1;
    }
    assert(s@.subrange(0, n as int) =~= p@);
    true
}

proof fn lemma_regs_range_none(regs: Seq<RegRegion>, init: (usize, usize), i: int)
    requires
        0 <= i <= regs.len(),
        regs_range(regs.subrange(0, i), init) is None,
    ensures
        regs_range(regs, init) is None,
    decreases regs.len() - i,
{
    if i < regs.len() {
        assert(regs.subrange(0, i + 1).drop_last() =~= regs.subrange(0, i));
        lemma_regs_range_none(regs, init, i + 1);
    } else {
        assert(regs.subrange(0, i) =~= regs);
    }
}

/// The range that the `reg` entries `regs` leave behind, from `init`.
fn regs_range_exec(regs: &Vec<RegRegion>, init: (usize, usize)) -> (r: Option<(usize, usize)>)
    ensures
        r == regs_range(regs@, init),
{
    let mut cur = init;
    let mut i: usize = 0;
    while i < regs.len()
        invariant
            0 <= i <= regs@.len(),
            regs_range(regs@.subrange(0, i as int), init) == Some(cur),
        decreases regs@.len() - i,
    {
        let g = regs[i];
        proof {
            assert(regs@.subrange(0, i as int + 1).drop_last() =~= regs@.subrange(0, i as int));
            assert(regs@.subrange(0, i as int + 1).last() == g);
        }
        match g.size {
            Some(sz) => {
                if sz <= usize::MAX - g.start {
                    cur = (g.start, g.start + sz);
                } else {
                    proof {
                        lemma_regs_range_none(regs@, init, i as int + 1);
                    }
                    return None;
                }
            },
            None => {
                proof {
                    lemma_regs_range_none(regs@, init, i as int + 1);
                }
                return None;
            },
        }
        i = i + 1;
    }
    assert(regs@.subrange(0, regs@.len() as int) =~= regs@);
    Some(cur)
}

/// The start address of the last `reg` entry, 0 when there is none.
fn last_start_exec(regs: &Vec<RegRegion>) -> (r: usize)
    ensures
        r == last_start(regs@),
{
    if regs.len() == 0 {
        0
    } else {
        regs[regs.len() - 1].start
    }
}

/// Visits one node; on failure (`false`) `m` is left in an unspecified state.
fn visit(m: &mut MachineInfo, n: &DtNode) -> (r: bool)
    requires
        old(m).wf(),
    ensures
        r == spec_visit(old(m)@, *n) is Some,
        r ==> final(m).wf() && final(m)@ == spec_visit(old(m)@, *n)->Some_0,
{
    let name = n.name.as_str();
    if starts_with(name, "memory") {
        match &n.reg {
            Some(r) => match regs_range_exec(r, (m.memory.start, m.memory.end)) {
                Some(g) => {
                    m.memory = Range { start: g.0, end: g.1 };
                    true
                },
                None => false,
            },
            None => false,
        }
    } else if starts_with(name, "serial") || starts_with(name, "uart") {
        match &n.reg {
            Some(r) => match &n.interrupts {
                Some(b) => {
                    if b.len() == 4 && m.uart_count < MAX_UARTS {
                        let irq = (b[0] as usize) * 0x1000000 + (b[1] as usize) * 0x10000 + (
                        b[2] as usize) * 0x100 + (b[3] as usize);
                        let base = last_start_exec(r);
                        let ghost before = m@;
                        m.uart[m.uart_count] = UartInfo { base, irq };
                        m.uart_count = m.uart_count + 1;
                        assert(m@.uarts =~= before.uarts.push(UartInfo { base, irq }));
                        true
                    } else {
                        false
                    }
                },
                None => false,
            },
            None => true,
        }
    } else if starts_with(name, "plic") {
        match &n.reg {
            Some(r) => match regs_range_exec(r, (m.plic.start, m.plic.end)) {
                Some(g) => {
                    m.plic = Range { start: g.0, end: g.1 };
                    true
                },
                None => false,
            },
            None => false,
        }
    } else if starts_with(name, "clint") {
        match &n.reg {
            Some(r) => match regs_range_exec(r, (m.clint.start, m.clint.end)) {
                Some(g) => {
                    m.clint = Range { start: g.0, end: g.1 };
                    true
                },
                None => false,
            },
            None => false,
        }
    } else if starts_with(name, "rtc") {
        match &n.reg {
            Some(r) => match regs_range_exec(r, (0, 0)) {
                Some(g) => {
                    m.rtc = RtcInfo { range: Range { start: g.0, end: g.1 }, irq: RTC_IRQ };
                    true
                },
                None => false,
            },
            None => false,
        }
    } else {
        true
    }
}

proof fn lemma_walk_none(nodes: Seq<DtNode>, m: MachineView, i: int)
    requires
        0 <= i <= nodes.len(),
        spec_walk(nodes.subrange(0, i), m) is None,
    ensures
        spec_walk(nodes, m) is None,
    decreases nodes.len() - i,
{
    if i < nodes.len() {
        assert(nodes.subrange(0, i + 1).drop_last() =~= nodes.subrange(0, i));
        lemma_walk_none(nodes, m, i + 1);
    } else {
        assert(nodes.subrange(0, i) =~= nodes);
    }
}

/// Gathers machine information from the model name, the CPU count and the
/// device-tree nodes in depth-first order; `None` when a node lacks what its
/// kind requires (see `spec_visit`) or there are more UARTs than slots.
pub fn machine_info_from_nodes(model: &[u8], smp: usize, nodes: &Vec<DtNode>) -> (r: Option<MachineInfo>)
    ensures
        r is Some <==> spec_walk(nodes@, initial_view(model@, smp)) is Some,
        r matches Some(m) ==> m.wf() && m@ == spec_walk(nodes@, initial_view(model@, smp))->Some_0,
{
    let mut model_field_arr: [u8; 32] = vstd::array::array_fill_for_copy_types(0u8);
    let n = if model.len() < MODEL_LEN { model.len() } else { MODEL_LEN };
    let mut i: usize = 0;
    while i < n
        invariant
            0 <= i <= n,
            n <= MODEL_LEN,
            n <= model@.len(),
            n == model@.len() || n == MODEL_LEN,
            model_field_arr@.len() == MODEL_LEN,
            forall|j: int| 0 <= j < i ==> model_field_arr@[j] == model@[j],
            forall|j: int| i <= j < MODEL_LEN ==> model_field_arr@[j] == 0u8,
        decreases n - i,
    {
        model_field_arr[i] = model[i];
        i = i + 1;
    }
    let mut m = MachineInfo {
        model: model_field_arr,
        smp,
        memory: Range { start: 0, end: 0 },
        uart: vstd::array::array_fill_for_copy_types(UartInfo { base: 0, irq: 0 }),
        plic: Range { start: 0, end: 0 },
        clint: Range { start: 0, end: 0 },
        rtc: RtcInfo { range: Range { start: 0, end: 0 }, irq: 0 },
        uart_count: 0,
    };
    let ghost init = initial_view(model@, smp);
    assert(m@.model =~= init.model);
    assert(m@.uarts =~= init.uarts);
    assert(nodes@.subrange(0, 0) =~= Seq::<DtNode>::empty());
    let mut k: usize = 0;
    while k < nodes.len()
        invariant
            0 <= k <= nodes@.len(),
            init == initial_view(model@, smp),
            m.wf(),
            spec_walk(nodes@.subrange(0, k as int), init) == Some(m@),
        decreases nodes@.len() - k,
    {
        proof {
            assert(nodes@.subrange(0, k as int + 1).drop_last() =~= nodes@.subrange(0, k as int));
            assert(nodes@.subrange(0, k as int + 1).last() == nodes@[k as int]);
        }
        let ghost before = m@;
        if !visit(&mut m, &nodes[k]) {
            proof {
                assert(spec_visit(before, nodes@[k as int]) is None);
                assert(spec_walk(nodes@.subrange(0, k as int + 1), init) is None);
                lemma_walk_none(nodes@, init, k as int + 1);
            }
            return None;
        }
        k = k + 1;
    }
    assert(nodes@.subrange(0, nodes@.len() as int) =~= nodes@);
    Some(m)
}

} // verus!
