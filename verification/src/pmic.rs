//! The PMIC's fuel gauge and buck charger.
use crate::exchange::{Op, Reply};
use crate::session::{Io, Session};
use crate::usbin::{SPMI_PERI_USBIN, SPMI_SID_USBIN};
use crate::trace;
use vstd::prelude::*;

verus! {

/// Peripheral id of the gauge's state-of-charge block.
pub const SPMI_PERI_BATT_SOC: u16 = 0x0040;

/// Its subtype register.
pub const SPMI_REG_BATT_SOC_SUBTYPE: u16 = 0x4005;

/// The state of charge and, one register up, its shadow.
pub const SPMI_REG_BATT_SOC: u16 = 0x4009;

/// The subtype of the block that holds a state of charge.
pub const SPMI_BATT_SOC_SUBTYPE_PM8150B: u8 = 0x10;

/// Peripheral id of the buck charger.
pub const SPMI_PERI_CHGR: u16 = 0x0010;

/// Peripheral id of the gauge's cell measurements.
pub const SPMI_PERI_BATT_INFO: u16 = 0x0041;

/// Fast charge current of the buck.
pub const SPMI_REG_CHGR_FCC: u16 = 0x1061;

/// Charge enable.
pub const SPMI_REG_CHGR_CHARGING_ENABLE: u16 = 0x1042;

/// Charge inhibit and friends.
pub const SPMI_REG_CHGR_CFG2: u16 = 0x1051;

/// Charger status.
pub const SPMI_REG_CHGR_STATUS_1: u16 = 0x1006;

/// Float voltage.
pub const SPMI_REG_CHGR_FLOAT_VOLTAGE: u16 = 0x1070;

/// Input current limit.
pub const SPMI_REG_USBIN_ICL: u16 = 0x1370;

/// Allowed adapters.
pub const SPMI_REG_USBIN_ADAPTER_ALLOW: u16 = 0x1360;

/// Cell current, low byte first.
pub const SPMI_REG_FG_IBATT_LSB: u16 = 0x41A2;

/// Shadow of the cell current.
pub const SPMI_REG_FG_IBATT_LSB_CP: u16 = 0x41A8;

/// Cell voltage, low byte first.
pub const SPMI_REG_FG_VBATT_LSB: u16 = 0x41A0;

/// Shadow of the cell voltage.
pub const SPMI_REG_FG_VBATT_LSB_CP: u16 = 0x41A6;

/// Numerator of a voltage step.
pub const FG_VBATT_NUMER: u32 = 122_070;

/// Denominator of a voltage step.
pub const FG_VBATT_DENOM: u32 = 1_000;

/// Numerator of a current step.
pub const FG_IBATT_NUMER: i32 = 488_281;

/// Denominator of a current step.
pub const FG_IBATT_DENOM: i32 = 1_000;

/// One snapshot of the buck charger and the gauge.
#[derive(Debug, Clone, Copy)]
pub struct ChargeRegs {
    /// Fast charge current, in steps of 50 mA.
    pub fcc_raw: u8,
    /// Charge enable.
    pub charge_enable: u8,
    /// Charge inhibit and friends.
    pub inhibit: u8,
    /// Charger status.
    pub chgr_status: u8,
    /// Float voltage code.
    pub fv_raw: u8,
    /// Input current limit code.
    pub icl_raw: u8,
    /// Allowed adapters.
    pub usbin_allow: u8,
    /// Cell current (µA), in two's complement.
    pub ibatt_ua: u32,
    /// Cell voltage (µV).
    pub fg_vbatt_uv: u32,
}

/// The unsigned number in two bytes, low one first.
pub open spec fn le16(pair: (u8, u8)) -> int {
    pair.0 + 256 * pair.1
}

/// The signed number in two bytes, low one first.
pub open spec fn signed_le16(pair: (u8, u8)) -> int {
    if le16(pair) < 0x8000 {
        le16(pair)
    } else {
        le16(pair) - 0x1_0000
    }
}

/// Division that rounds toward zero.
pub open spec fn toward_zero(n: int, d: int) -> int {
    if n >= 0 {
        n / d
    } else {
        -((-n) / d)
    }
}

/// The cell voltage that a register pair stands for (µV).
pub open spec fn cell_voltage_uv(pair: (u8, u8)) -> int {
    le16(pair) * FG_VBATT_NUMER / FG_VBATT_DENOM as int
}

/// The cell current that a register pair stands for (µA), signed.
pub open spec fn cell_current_ua(pair: (u8, u8)) -> int {
    toward_zero(signed_le16(pair) * FG_IBATT_NUMER, FG_IBATT_DENOM as int)
}

/// The 32-bit word that holds a number in two's complement.
pub open spec fn twos_complement(value: int) -> int {
    if value >= 0 {
        value
    } else {
        value + 0x1_0000_0000
    }
}

/// Decodes a voltage pair (µV).
pub fn decode_vbatt(pair: (u8, u8)) -> (uv: u32)
    ensures
        uv == cell_voltage_uv(pair),
{
    let word: u64 = pair.0 as u64 + 256 * (pair.1 as u64);
    (word * 122_070 / 1_000) as u32
}

/// Decodes a current pair (µA); a negative current is in two's complement.
pub fn decode_ibatt(pair: (u8, u8)) -> (ua: u32)
    ensures
        ua == twos_complement(cell_current_ua(pair)),
{
    let word: u64 = pair.0 as u64 + 256 * (pair.1 as u64);
    if word < 0x8000 {
        (word * 488_281 / 1_000) as u32
    } else {
        let magnitude: u64 = (0x1_0000 - word) * 488_281 / 1_000;
        proof {
            assert(-(signed_le16(pair) * FG_IBATT_NUMER) == (0x1_0000 - word) * 488_281);
            assert(magnitude >= 1);
        }
        (0x1_0000_0000 - magnitude) as u32
    }
}

// ---------------------------------------------------------------------------
// State of charge
// ---------------------------------------------------------------------------
pub open spec fn su_read_run(io: Io<Op>, reg: u16) -> (Io<Op>, Option<u8>) {
    io.byte(Op::SuRead { sid: SPMI_SID_USBIN, reg })
}

fn su_read(io: &mut Session<Op>, reg: u16) -> (value: Option<u8>)
    ensures
        (final(io)@, value) == su_read_run(old(io)@, reg),
{
    io.byte(Op::SuRead { sid: SPMI_SID_USBIN, reg })
}

pub open spec fn su_read_pair_run(io: Io<Op>, reg: u16) -> (Io<Op>, Option<(u8, u8)>) {
    io.pair(Op::SuReadPair { sid: SPMI_SID_USBIN, reg })
}

fn su_read_pair(io: &mut Session<Op>, reg: u16) -> (value: Option<(u8, u8)>)
    ensures
        (final(io)@, value) == su_read_pair_run(old(io)@, reg),
{
    io.pair(Op::SuReadPair { sid: SPMI_SID_USBIN, reg })
}

/// Two registers that shadow each other: their value where they agree.
pub open spec fn shadowed(pair: Option<(u8, u8)>) -> Option<u8> {
    match pair {
        Some((value, shadow)) => if value == shadow {
            Some(value)
        } else {
            None
        },
        None => None,
    }
}

pub open spec fn batt_soc_session_run(io: Io<Op>) -> (Io<Op>, Option<u8>) {
    let (io, granted) = io.outcome(Op::SuGrant(SPMI_PERI_BATT_SOC));
    if granted is Err {
        (io, None)
    } else {
        let (io, subtype) = su_read_run(io, SPMI_REG_BATT_SOC_SUBTYPE);
        if subtype != Some(SPMI_BATT_SOC_SUBTYPE_PM8150B) {
            (io, None)
        } else {
            let (io, cap) = su_read_pair_run(io, SPMI_REG_BATT_SOC);
            (io, shadowed(cap))
        }
    }
}

fn batt_soc_session(io: &mut Session<Op>) -> (raw: Option<u8>)
    ensures
        (final(io)@, raw) == batt_soc_session_run(old(io)@),
{
    if io.outcome(Op::SuGrant(SPMI_PERI_BATT_SOC)).is_err() {
        return None;
    }
    match su_read(io, SPMI_REG_BATT_SOC_SUBTYPE) {
        Some(subtype) => {
            if subtype != SPMI_BATT_SOC_SUBTYPE_PM8150B {
                return None;
            }
        },
        None => return None,
    }
    match su_read_pair(io, SPMI_REG_BATT_SOC) {
        Some((value, shadow)) => {
            if value == shadow {
                Some(value)
            } else {
                None
            }
        },
        None => None,
    }
}

pub open spec fn read_batt_soc_raw_run(io: Io<Op>) -> (Io<Op>, Option<u8>) {
    let (io, opened) = io.outcome(Op::SuOpen);
    if opened is Err {
        (io, None)
    } else {
        let (io, raw) = batt_soc_session_run(io);
        (io.tell(Op::SuClose), raw)
    }
}

/// Reads the raw state of charge. `None` where a request fails, the block is
/// another one, or the value and its shadow differ.
pub fn read_batt_soc_raw(io: &mut Session<Op>) -> (raw: Option<u8>)
    ensures
        (final(io)@, raw) == read_batt_soc_raw_run(old(io)@),
{
    if io.outcome(Op::SuOpen).is_err() {
        return None;
    }
    let raw = batt_soc_session(io);
    io.tell(Op::SuClose);
    raw
}

// ---------------------------------------------------------------------------
// Buck charger
// ---------------------------------------------------------------------------
pub open spec fn grant_charge_blocks_run(io: Io<Op>) -> (Io<Op>, bool) {
    let (io, chgr) = io.outcome(Op::SuGrant(SPMI_PERI_CHGR));
    if chgr is Err {
        (io, false)
    } else {
        let (io, usbin) = io.outcome(Op::SuGrant(SPMI_PERI_USBIN));
        if usbin is Err {
            (io, false)
        } else {
            let (io, info) = io.outcome(Op::SuGrant(SPMI_PERI_BATT_INFO));
            (io, info is Ok)
        }
    }
}

fn grant_charge_blocks(io: &mut Session<Op>) -> (granted: bool)
    ensures
        (final(io)@, granted) == grant_charge_blocks_run(old(io)@),
{
    if io.outcome(Op::SuGrant(SPMI_PERI_CHGR)).is_err() {
        return false;
    }
    if io.outcome(Op::SuGrant(SPMI_PERI_USBIN)).is_err() {
        return false;
    }
    io.outcome(Op::SuGrant(SPMI_PERI_BATT_INFO)).is_ok()
}

/// The registers that a snapshot reads one by one, in order.
pub open spec fn charge_registers() -> Seq<u16> {
    seq![
        SPMI_REG_CHGR_FCC,
        SPMI_REG_CHGR_CHARGING_ENABLE,
        SPMI_REG_CHGR_CFG2,
        SPMI_REG_CHGR_STATUS_1,
        SPMI_REG_CHGR_FLOAT_VOLTAGE,
        SPMI_REG_USBIN_ICL,
        SPMI_REG_USBIN_ADAPTER_ALLOW,
    ]
}

/// Reads registers in order, up to the first that cannot be read.
pub open spec fn read_each_run(io: Io<Op>, regs: Seq<u16>, read: Seq<u8>) -> (
    Io<Op>,
    Option<Seq<u8>>,
)
    decreases regs.len() - read.len(),
{
    if read.len() >= regs.len() {
        (io, Some(read))
    } else {
        let (io, value) = su_read_run(io, regs[read.len() as int]);
        match value {
            Some(value) => read_each_run(io, regs, read.push(value)),
            None => (io, None),
        }
    }
}

fn read_each(io: &mut Session<Op>, regs: &[u16]) -> (values: Option<Vec<u8>>)
    ensures
        final(io)@ == read_each_run(old(io)@, regs@, Seq::empty()).0,
        match values {
            Some(values) => read_each_run(old(io)@, regs@, Seq::empty()).1 == Some(values@)
                && values@.len() == regs@.len(),
            None => read_each_run(old(io)@, regs@, Seq::empty()).1 is None,
        },
{
    let mut read: Vec<u8> = Vec::new();
    while read.len() < regs.len()
        invariant
            read@.len() <= regs@.len(),
            read_each_run(io@, regs@, read@) == read_each_run(old(io)@, regs@, Seq::empty()),
        decreases regs@.len() - read@.len(),
    {
        match su_read(io, regs[read.len()]) {
            Some(value) => read.push(value),
            None => return None,
        }
    }
    Some(read)
}

/// A register pair and its copy: the pair where they agree.
pub open spec fn copied_pair_run(io: Io<Op>, reg: u16, copy: u16) -> (Io<Op>, Option<(u8, u8)>) {
    let (io, pair) = su_read_pair_run(io, reg);
    if pair is None {
        (io, None)
    } else {
        let (io, twin) = su_read_pair_run(io, copy);
        (io, if twin == pair {
            pair
        } else {
            None
        })
    }
}

fn copied_pair(io: &mut Session<Op>, reg: u16, copy: u16) -> (pair: Option<(u8, u8)>)
    ensures
        (final(io)@, pair) == copied_pair_run(old(io)@, reg, copy),
{
    let pair: (u8, u8) = match su_read_pair(io, reg) {
        Some(pair) => pair,
        None => return None,
    };
    match su_read_pair(io, copy) {
        Some(twin) => {
            if twin.0 == pair.0 && twin.1 == pair.1 {
                Some(pair)
            } else {
                None
            }
        },
        None => None,
    }
}

/// The snapshot that seven registers and two pairs make.
pub open spec fn snapshot(values: Seq<u8>, ibatt: (u8, u8), vbatt: (u8, u8)) -> ChargeRegs {
    ChargeRegs {
        fcc_raw: values[0],
        charge_enable: values[1],
        inhibit: values[2],
        chgr_status: values[3],
        fv_raw: values[4],
        icl_raw: values[5],
        usbin_allow: values[6],
        ibatt_ua: twos_complement(cell_current_ua(ibatt)) as u32,
        fg_vbatt_uv: cell_voltage_uv(vbatt) as u32,
    }
}

pub open spec fn charge_session_run(io: Io<Op>) -> (Io<Op>, Option<ChargeRegs>) {
    let (io, granted) = grant_charge_blocks_run(io);
    if !granted {
        (io, None)
    } else {
        let (io, values) = read_each_run(io, charge_registers(), Seq::empty());
        match values {
            None => (io, None),
            Some(values) => {
                let (io, ibatt) = copied_pair_run(
                    io,
                    SPMI_REG_FG_IBATT_LSB,
                    SPMI_REG_FG_IBATT_LSB_CP,
                );
                match ibatt {
                    None => (io, None),
                    Some(ibatt) => {
                        let (io, vbatt) = copied_pair_run(
                            io,
                            SPMI_REG_FG_VBATT_LSB,
                            SPMI_REG_FG_VBATT_LSB_CP,
                        );
                        match vbatt {
                            None => (io, None),
                            Some(vbatt) => (io, Some(snapshot(values, ibatt, vbatt))),
                        }
                    },
                }
            },
        }
    }
}

fn charge_session(io: &mut Session<Op>) -> (regs: Option<ChargeRegs>)
    ensures
        (final(io)@, regs) == charge_session_run(old(io)@),
{
    if !grant_charge_blocks(io) {
        return None;
    }
    let order: [u16; 7] = [
        SPMI_REG_CHGR_FCC,
        SPMI_REG_CHGR_CHARGING_ENABLE,
        SPMI_REG_CHGR_CFG2,
        SPMI_REG_CHGR_STATUS_1,
        SPMI_REG_CHGR_FLOAT_VOLTAGE,
        SPMI_REG_USBIN_ICL,
        SPMI_REG_USBIN_ADAPTER_ALLOW,
    ];
    assert(order@ =~= charge_registers());
    let values: Vec<u8> = match read_each(io, &order) {
        Some(values) => values,
        None => return None,
    };
    let ibatt: (u8, u8) = match copied_pair(io, SPMI_REG_FG_IBATT_LSB, SPMI_REG_FG_IBATT_LSB_CP) {
        Some(pair) => pair,
        None => return None,
    };
    let vbatt: (u8, u8) = match copied_pair(io, SPMI_REG_FG_VBATT_LSB, SPMI_REG_FG_VBATT_LSB_CP) {
        Some(pair) => pair,
        None => return None,
    };
    Some(
        ChargeRegs {
            fcc_raw: values[0],
            charge_enable: values[1],
            inhibit: values[2],
            chgr_status: values[3],
            fv_raw: values[4],
            icl_raw: values[5],
            usbin_allow: values[6],
            ibatt_ua: decode_ibatt(ibatt),
            fg_vbatt_uv: decode_vbatt(vbatt),
        },
    )
}

pub open spec fn read_charge_regs_run(io: Io<Op>) -> (Io<Op>, Option<ChargeRegs>) {
    let (io, opened) = io.outcome(Op::SuOpen);
    if opened is Err {
        (io, None)
    } else {
        let (io, regs) = charge_session_run(io);
        (io.tell(Op::SuClose), regs)
    }
}

/// Reads the buck charger and the cell measurements. There is no partial
/// snapshot: one failed request, or one pair that differs from its copy, and
/// there is none.
pub fn read_charge_regs(io: &mut Session<Op>) -> (regs: Option<ChargeRegs>)
    ensures
        (final(io)@, regs) == read_charge_regs_run(old(io)@),
{
    if io.outcome(Op::SuOpen).is_err() {
        return None;
    }
    let regs = charge_session(io);
    io.tell(Op::SuClose);
    regs
}

pub open spec fn fcc_session_run(io: Io<Op>, raw: u8) -> (Io<Op>, Option<u8>) {
    let (io, granted) = io.outcome(Op::SuGrant(SPMI_PERI_CHGR));
    if granted is Err {
        (io, None)
    } else {
        let (io, written) = io.flag(
            Op::SuWrite { sid: SPMI_SID_USBIN, reg: SPMI_REG_CHGR_FCC, value: raw },
        );
        if !written {
            (io, None)
        } else {
            su_read_run(io, SPMI_REG_CHGR_FCC)
        }
    }
}

fn fcc_session(io: &mut Session<Op>, raw: u8) -> (kept: Option<u8>)
    ensures
        (final(io)@, kept) == fcc_session_run(old(io)@, raw),
{
    if io.outcome(Op::SuGrant(SPMI_PERI_CHGR)).is_err() {
        return None;
    }
    if !io.flag(Op::SuWrite { sid: SPMI_SID_USBIN, reg: SPMI_REG_CHGR_FCC, value: raw }) {
        return None;
    }
    su_read(io, SPMI_REG_CHGR_FCC)
}

pub open spec fn write_fcc_raw_run(io: Io<Op>, raw: u8) -> (Io<Op>, Option<u8>) {
    let (io, opened) = io.outcome(Op::SuOpen);
    if opened is Err {
        (io, None)
    } else {
        let (io, kept) = fcc_session_run(io, raw);
        (io.tell(Op::SuClose), kept)
    }
}

/// Writes the buck's fast charge current and returns what the register holds
/// afterwards. `None` where the open, the grant, the write or the read back
/// fails.
pub fn write_fcc_raw(io: &mut Session<Op>, raw: u8) -> (kept: Option<u8>)
    ensures
        (final(io)@, kept) == write_fcc_raw_run(old(io)@, raw),
{
    if io.outcome(Op::SuOpen).is_err() {
        return None;
    }
    let kept = fcc_session(io, raw);
    io.tell(Op::SuClose);
    kept
}

/// A state of charge is only believed where its register and the shadow agree,
/// in the block that holds one.
pub proof fn law_charge_needs_its_shadow(io: Io<Op>)
    ensures
        ({
            let (at, _) = io.outcome(Op::SuGrant(SPMI_PERI_BATT_SOC));
            let (at, subtype) = su_read_run(at, SPMI_REG_BATT_SOC_SUBTYPE);
            let (_, pair) = su_read_pair_run(at, SPMI_REG_BATT_SOC);
            batt_soc_session_run(io).1 is Some ==> subtype == Some(SPMI_BATT_SOC_SUBTYPE_PM8150B)
                && pair == Some((batt_soc_session_run(io).1->0, batt_soc_session_run(io).1->0))
        }),
{
}

// ---------------------------------------------------------------------------
// Laws of what is read and written
// ---------------------------------------------------------------------------
/// The byte in an answer.
pub open spec fn byte_of(reply: Reply) -> Option<u8> {
    match reply {
        Reply::Byte(value) => value,
        _ => None,
    }
}

/// The pair of bytes in an answer.
pub open spec fn pair_of(reply: Reply) -> Option<(u8, u8)> {
    match reply {
        Reply::Pair(value) => value,
        _ => None,
    }
}

/// A voltage pair counts 122.07 µV a step, and a current pair 488.281 µA a step in
/// either direction; fractions are dropped.
pub proof fn law_steps_of_the_gauge(low: u8, high: u8)
    ensures
        ({
            let word = low + 256 * high;
            &&& cell_voltage_uv((low, high)) == word * 122_070 / 1_000
            &&& high < 128 ==> cell_current_ua((low, high)) == word * 488_281 / 1_000
            &&& high >= 128 ==> cell_current_ua((low, high)) == -((0x1_0000 - word) * 488_281
                / 1_000)
        }),
{
    let word = low + 256 * high;
    if high >= 128 {
        assert(-((word - 0x1_0000) * 488_281) == (0x1_0000 - word) * 488_281);
        assert((word - 0x1_0000) * 488_281 < 0);
    }
}

/// A word in two's complement stands for the number that it was made of.
pub proof fn law_word_holds_the_current(value: int)
    requires
        -0x8000_0000 <= value < 0x8000_0000,
    ensures
        0 <= twos_complement(value) < 0x1_0000_0000,
        value >= 0 ==> twos_complement(value) == value,
        value < 0 ==> twos_complement(value) - 0x1_0000_0000 == value,
{
}

/// A state of charge is read from the block that has one, through the superuser node,
/// and stands where its register and the shadow agree. The node is closed again
/// whatever came of it.
pub proof fn law_charge_is_read(io: Io<Op>)
    requires
        io.pending is None,
        read_batt_soc_raw_run(io).0.pending is None,
    ensures
        ({
            let (after, raw) = read_batt_soc_raw_run(io);
            let opened = trace::good(trace::answer(io, 0));
            let granted = opened && trace::good(trace::answer(io, 1));
            let block = granted && byte_of(trace::answer(io, 2)) == Some(0x10u8);
            let pair = pair_of(trace::answer(io, 3));
            &&& trace::follows(io, after)
            &&& raw is Some <==> block && (pair matches Some((value, shadow)) && value == shadow)
            &&& raw matches Some(raw) ==> pair == Some((raw, raw))
            &&& block ==> trace::asked(io, after) == seq![
                Op::SuOpen,
                Op::SuGrant(0x40),
                Op::SuRead { sid: 0x02, reg: 0x4005 },
                Op::SuReadPair { sid: 0x02, reg: 0x4009 },
                Op::SuClose,
            ]
            &&& granted && !block ==> trace::asked(io, after) == seq![
                Op::SuOpen,
                Op::SuGrant(0x40),
                Op::SuRead { sid: 0x02, reg: 0x4005 },
                Op::SuClose,
            ]
            &&& opened && !granted ==> trace::asked(io, after) == seq![
                Op::SuOpen,
                Op::SuGrant(0x40),
                Op::SuClose,
            ]
            &&& !opened ==> trace::asked(io, after) == seq![Op::SuOpen]
        }),
{
    broadcast use trace::group_trace;

    trace::lemma_asked_nothing(io);
    trace::lemma_follows_at_first(io);
}

/// A charge current is written to its register, through the superuser node and the
/// grant of its block, and read back. What was kept is what was read. The node is
/// closed again whatever came of it.
pub proof fn law_charge_current_is_written(io: Io<Op>, raw: u8)
    requires
        io.pending is None,
        write_fcc_raw_run(io, raw).0.pending is None,
    ensures
        ({
            let (after, kept) = write_fcc_raw_run(io, raw);
            let opened = trace::good(trace::answer(io, 0));
            let granted = opened && trace::good(trace::answer(io, 1));
            let taken = granted && trace::yes(trace::answer(io, 2));
            &&& trace::follows(io, after)
            &&& granted ==> trace::written(io, after) == seq![(0x1061u16, raw)]
            &&& !granted ==> trace::written(io, after).len() == 0
            &&& taken ==> kept == byte_of(trace::answer(io, 3))
            &&& !taken ==> kept is None
            &&& trace::asked(io, after)[0] == Op::SuOpen
            &&& opened ==> trace::asked(io, after).last() == Op::SuClose && trace::asked(
                io,
                after,
            )[1] == Op::SuGrant(0x10)
            &&& taken ==> trace::asked(io, after)[3] == (Op::SuRead { sid: 0x02, reg: 0x1061 })
            &&& !opened ==> trace::asked(io, after).len() == 1
            &&& trace::published(io, after).len() == 0
        }),
{
    broadcast use {trace::group_trace, trace::group_marks};

    trace::lemma_asked_nothing(io);
    trace::lemma_written_nothing(io);
    trace::lemma_published_nothing(io);
    trace::lemma_follows_at_first(io);
}

/// A snapshot reads its registers in order, after the grants of their three blocks, and
/// each of its two pairs twice: it stands only where everything was read and the pairs
/// agree with their copies. It holds what was read, and nothing is written for it.
#[verifier::rlimit(60)]
pub proof fn law_snapshot_is_what_was_read(io: Io<Op>)
    requires
        io.pending is None,
        read_charge_regs_run(io).0.pending is None,
    ensures
        ({
            let (after, regs) = read_charge_regs_run(io);
            let granted = trace::good(trace::answer(io, 0)) && trace::good(trace::answer(io, 1))
                && trace::good(trace::answer(io, 2)) && trace::good(trace::answer(io, 3));
            let read = forall|i: int|
                4 <= i < 11 ==> byte_of(#[trigger] trace::answer(io, i)) is Some;
            let current = pair_of(trace::answer(io, 11));
            let voltage = pair_of(trace::answer(io, 13));
            &&& trace::follows(io, after)
            &&& trace::written(io, after).len() == 0
            &&& regs is Some ==> granted && read && current is Some && voltage is Some && pair_of(
                trace::answer(io, 12),
            ) == current && pair_of(trace::answer(io, 14)) == voltage
            &&& granted && read && current is Some && voltage is Some && pair_of(
                trace::answer(io, 12),
            ) == current && pair_of(trace::answer(io, 14)) == voltage ==> regs is Some
            &&& regs matches Some(regs) ==> {
                &&& byte_of(trace::answer(io, 4)) == Some(regs.fcc_raw)
                &&& byte_of(trace::answer(io, 5)) == Some(regs.charge_enable)
                &&& byte_of(trace::answer(io, 6)) == Some(regs.inhibit)
                &&& byte_of(trace::answer(io, 7)) == Some(regs.chgr_status)
                &&& byte_of(trace::answer(io, 8)) == Some(regs.fv_raw)
                &&& byte_of(trace::answer(io, 9)) == Some(regs.icl_raw)
                &&& byte_of(trace::answer(io, 10)) == Some(regs.usbin_allow)
                &&& regs.ibatt_ua == twos_complement(cell_current_ua(current->0)) as u32
                &&& regs.fg_vbatt_uv == cell_voltage_uv(voltage->0) as u32
                &&& trace::asked(io, after) == snapshot_requests()
            }
        }),
{
    broadcast use trace::group_trace;

    reveal_with_fuel(read_each_run, 8);
    trace::lemma_asked_nothing(io);
    trace::lemma_written_nothing(io);
    trace::lemma_follows_at_first(io);
}

/// The requests of a snapshot that succeeds.
pub open spec fn snapshot_requests() -> Seq<Op> {
    seq![
        Op::SuOpen,
        Op::SuGrant(0x10),
        Op::SuGrant(0x13),
        Op::SuGrant(0x41),
        Op::SuRead { sid: 0x02, reg: 0x1061 },
        Op::SuRead { sid: 0x02, reg: 0x1042 },
        Op::SuRead { sid: 0x02, reg: 0x1051 },
        Op::SuRead { sid: 0x02, reg: 0x1006 },
        Op::SuRead { sid: 0x02, reg: 0x1070 },
        Op::SuRead { sid: 0x02, reg: 0x1370 },
        Op::SuRead { sid: 0x02, reg: 0x1360 },
        Op::SuReadPair { sid: 0x02, reg: 0x41A2 },
        Op::SuReadPair { sid: 0x02, reg: 0x41A8 },
        Op::SuReadPair { sid: 0x02, reg: 0x41A0 },
        Op::SuReadPair { sid: 0x02, reg: 0x41A6 },
        Op::SuClose,
    ]
}

} // verus!
