//! The PMIC's superuser node.
use crate::exchange::SuperuserApsdProbe;
use crate::session::{Io, Session};
use crate::spb_abi::{
    IOCTL_SPMI_SUPERUSER_GRANT, IOCTL_SPMI_SUPERUSER_READ, IOCTL_SPMI_SUPERUSER_WRITE,
    SPMI_SUPERUSER_HEADER_LEN,
};
use crate::status::STATUS_INVALID_PARAMETER;
use crate::usbin::{SPMI_PERI_USBIN, SPMI_SID_USBIN};
use crate::wire::{self, put_u32, put_u8, put_zeros};
use crate::wdf::{self, exchange, roomy_exchange, Object, TargetName, WdfOp, OPEN_OPTIONS};
use vstd::prelude::*;

verus! {

/// Name of the node.
pub const SUPERUSER_NAME: &'static str = "\\Device\\Spmi\\SUPERUSER";

/// Access to the node.
pub const SUPERUSER_ACCESS: u32 = 0xC000_0000;

/// Everything shared with its other users.
pub const PROBE_SHARE_ALL: u32 = 7;

/// Most bytes of one transfer.
pub const MAX_TRANSFER: usize = 255;

/// Register of the one-shot probe.
pub const APSD_PROBE_REG: u16 = 0x1307;

/// A register address on the node: slave and register.
#[verifier::allow_in_spec]
pub fn superuser_addr_enc(sid: u8, reg: u16) -> (enc: u32)
    returns
        (sid * 65536 + reg) as u32,
{
    sid as u32 * 65536 + reg as u32
}

/// Two registers never share an encoded address.
pub proof fn law_addresses_are_distinct(sid: u8, reg: u16, other_sid: u8, other_reg: u16)
    ensures
        superuser_addr_enc(sid, reg) == superuser_addr_enc(other_sid, other_reg) <==> sid
            == other_sid && reg == other_reg,
        superuser_addr_enc(sid, reg) == ((sid as u32) << 16u32) | (reg as u32),
{
    let s = sid as u32;
    let r = reg as u32;
    assert(s * 65536 + r == ((s << 16u32) | r)) by (bit_vector)
        requires
            s < 256,
            r < 65536,
    ;
}

/// The claim of a peripheral.
pub open spec fn grant_frame(peri: u16) -> Seq<u8> {
    seq![1u8, 0u8, (peri % 256) as u8, (peri / 256) as u8]
}

/// The head of a transfer: 4 zero bytes, the address, the length, 3 zero bytes.
pub open spec fn transfer_frame(sid: u8, reg: u16, len: nat) -> Seq<u8> {
    wire::zeros(4) + wire::le32(superuser_addr_enc(sid, reg)) + seq![len as u8] + wire::zeros(3)
}

/// The address stands in the head as register and slave, low byte first.
pub proof fn law_frame_holds_the_address(sid: u8, reg: u16, len: nat)
    ensures
        transfer_frame(sid, reg, len).len() == SPMI_SUPERUSER_HEADER_LEN,
        transfer_frame(sid, reg, len)[4] == reg % 256,
        transfer_frame(sid, reg, len)[5] == reg / 256,
        transfer_frame(sid, reg, len)[6] == sid,
        transfer_frame(sid, reg, len)[7] == 0,
{
    let enc = superuser_addr_enc(sid, reg);
    assert(enc % 256 == reg % 256);
    assert(enc / 256 % 256 == reg / 256);
    assert(enc / 65536 == sid);
}

fn build_grant(peri: u16) -> (frame: Vec<u8>)
    ensures
        frame@ == grant_frame(peri),
{
    let mut frame: Vec<u8> = Vec::new();
    frame.push(1);
    frame.push(0);
    frame.push((peri % 256) as u8);
    frame.push((peri / 256) as u8);
    assert(frame@ =~= grant_frame(peri));
    frame
}

fn build_transfer(sid: u8, reg: u16, len: usize) -> (frame: Vec<u8>)
    requires
        len <= MAX_TRANSFER,
    ensures
        frame@ == transfer_frame(sid, reg, len as nat),
{
    let mut frame: Vec<u8> = Vec::new();
    put_zeros(&mut frame, 4);
    put_u32(&mut frame, superuser_addr_enc(sid, reg));
    put_u8(&mut frame, len as u8);
    put_zeros(&mut frame, 3);
    frame
}

/// An open node.
#[derive(Debug, Clone, Copy)]
pub struct SuperuserBus {
    open: bool,
}

/// A length that one transfer can have.
#[verifier::allow_in_spec]
pub fn transferable(len: usize) -> (r: bool)
    returns
        1 <= len && len <= MAX_TRANSFER,
{
    1 <= len && len <= MAX_TRANSFER
}

/// Success with the output, or the status.
pub open spec fn outcome(r: wdf::Exchange) -> Result<Seq<u8>, i32> {
    if r.status >= 0 {
        Ok(r.output)
    } else {
        Err(r.status)
    }
}

/// An output that carries no data.
pub open spec fn without_data(r: Result<Seq<u8>, i32>) -> Result<(), i32> {
    match r {
        Ok(_) => Ok(()),
        Err(status) => Err(status),
    }
}

pub open spec fn read_bytes_run(io: Io<WdfOp>, sid: u8, reg: u16, len: usize) -> (
    Io<WdfOp>,
    Result<Seq<u8>, i32>,
) {
    if !transferable(len) {
        (io, Err(STATUS_INVALID_PARAMETER))
    } else {
        let (io, r) = wdf::exchange_run(
            io,
            IOCTL_SPMI_SUPERUSER_READ,
            transfer_frame(sid, reg, len as nat),
            len as nat,
        );
        (io, outcome(r))
    }
}

pub open spec fn write_bytes_run(io: Io<WdfOp>, sid: u8, reg: u16, data: Seq<u8>) -> (
    Io<WdfOp>,
    Result<(), i32>,
) {
    if !(1 <= data.len() <= MAX_TRANSFER) {
        (io, Err(STATUS_INVALID_PARAMETER))
    } else {
        let (io, r) = wdf::exchange_run(
            io,
            IOCTL_SPMI_SUPERUSER_WRITE,
            transfer_frame(sid, reg, data.len()) + data,
            0,
        );
        (io, without_data(outcome(r)))
    }
}

#[verifier::opaque]
pub open spec fn open_run(io: Io<WdfOp>) -> (Io<WdfOp>, i32) {
    let (io, created) = io.status(WdfOp::TargetCreate);
    if created < 0 {
        (io, created)
    } else {
        let (io, opened) = io.status(
            WdfOp::TargetOpen {
                name: TargetName::Device(SUPERUSER_NAME),
                access: SUPERUSER_ACCESS,
                share: PROBE_SHARE_ALL,
                options: OPEN_OPTIONS,
            },
        );
        if opened < 0 {
            (io.tell(WdfOp::Delete(Object::Target)), opened)
        } else {
            (io, opened)
        }
    }
}

/// Opens the node. A target that does not open is deleted.
fn open_node(io: &mut Session<WdfOp>) -> (status: i32)
    ensures
        (final(io)@, status) == open_run(old(io)@),
{
    proof {
        reveal(open_run);
    }
    let created: i32 = io.status(WdfOp::TargetCreate);
    if created < 0 {
        return created;
    }
    let opened: i32 = io.status(
        WdfOp::TargetOpen {
            name: TargetName::Device(SUPERUSER_NAME),
            access: SUPERUSER_ACCESS,
            share: PROBE_SHARE_ALL,
            options: OPEN_OPTIONS,
        },
    );
    if opened < 0 {
        io.tell(WdfOp::Delete(Object::Target));
    }
    opened
}

impl SuperuserBus {
    /// Whether the node is open.
    pub closed spec fn is_open(&self) -> bool {
        self.open
    }

    /// Opens the node.
    pub fn open(io: &mut Session<WdfOp>) -> (r: Result<SuperuserBus, i32>)
        ensures
            final(io)@ == open_run(old(io)@).0,
            match r {
                Ok(bus) => open_run(old(io)@).1 >= 0 && bus.is_open(),
                Err(status) => status < 0 && open_run(old(io)@).1 == status,
            },
    {
        let status: i32 = open_node(io);
        if status < 0 {
            Err(status)
        } else {
            Ok(SuperuserBus { open: true })
        }
    }

    /// Claims a peripheral.
    pub fn grant(&mut self, io: &mut Session<WdfOp>, peri: u16) -> (r: Result<(), i32>)
        ensures
            ({
                let (after, done) = wdf::exchange_run(
                    old(io)@,
                    IOCTL_SPMI_SUPERUSER_GRANT,
                    grant_frame(peri),
                    0,
                );
                final(io)@ == after && r == without_data(outcome(done))
            }),
            final(self).is_open() == old(self).is_open(),
    {
        let frame = build_grant(peri);
        self.ioctl_in(io, IOCTL_SPMI_SUPERUSER_GRANT, frame.as_slice())
    }

    /// Reads one register.
    pub fn read_u8(&mut self, io: &mut Session<WdfOp>, sid: u8, reg: u16) -> (r: Result<u8, i32>)
        ensures
            ({
                let (after, read) = read_bytes_run(old(io)@, sid, reg, 1);
                final(io)@ == after && match r {
                    Ok(value) => read matches Ok(bytes) && bytes == seq![value],
                    Err(status) => read == Err::<Seq<u8>, i32>(status),
                }
            }),
            final(self).is_open() == old(self).is_open(),
    {
        let mut buf: Vec<u8> = Vec::new();
        buf.push(0);
        match self.read_bytes(io, sid, reg, &mut buf) {
            Ok(()) => {
                assert(buf@ =~= seq![buf@[0]]);
                Ok(buf[0])
            },
            Err(status) => Err(status),
        }
    }

    /// Writes one register.
    pub fn write_u8(&mut self, io: &mut Session<WdfOp>, sid: u8, reg: u16, value: u8) -> (r: Result<
        (),
        i32,
    >)
        ensures
            (final(io)@, r) == write_bytes_run(old(io)@, sid, reg, seq![value]),
            final(self).is_open() == old(self).is_open(),
    {
        let mut data: Vec<u8> = Vec::new();
        data.push(value);
        assert(data@ =~= seq![value]);
        self.write_bytes(io, sid, reg, data.as_slice())
    }

    /// Reads adjacent registers into a buffer, as many as it holds. A failure
    /// leaves the buffer as it was.
    pub fn read_bytes(
        &mut self,
        io: &mut Session<WdfOp>,
        sid: u8,
        reg: u16,
        out: &mut Vec<u8>,
    ) -> (r: Result<(), i32>)
        ensures
            ({
                let (after, read) = read_bytes_run(old(io)@, sid, reg, old(out)@.len() as usize);
                final(io)@ == after && r == without_data(read) && final(out)@ == match read {
                    Ok(bytes) => bytes,
                    Err(_) => old(out)@,
                }
            }),
            final(out)@.len() == old(out)@.len(),
            final(self).is_open() == old(self).is_open(),
    {
        let len: usize = out.len();
        if !transferable(len) {
            return Err(STATUS_INVALID_PARAMETER);
        }
        let frame = build_transfer(sid, reg, len);
        self.ioctl_in_out(io, IOCTL_SPMI_SUPERUSER_READ, frame.as_slice(), out)
    }

    /// Writes adjacent registers.
    pub fn write_bytes(&mut self, io: &mut Session<WdfOp>, sid: u8, reg: u16, data: &[u8]) -> (r: Result<
        (),
        i32,
    >)
        ensures
            (final(io)@, r) == write_bytes_run(old(io)@, sid, reg, data@),
            final(self).is_open() == old(self).is_open(),
    {
        let len: usize = data.len();
        if !transferable(len) {
            return Err(STATUS_INVALID_PARAMETER);
        }
        let mut frame = build_transfer(sid, reg, len);
        let mut index: usize = 0;
        while index < len
            invariant
                index <= len,
                len == data@.len(),
                frame@ == transfer_frame(sid, reg, len as nat) + data@.take(index as int),
            decreases len - index,
        {
            frame.push(data[index]);
            index = index + 1;
        }
        assert(data@.take(index as int) == data@);
        self.ioctl_in(io, IOCTL_SPMI_SUPERUSER_WRITE, frame.as_slice())
    }

    fn ioctl_in(&mut self, io: &mut Session<WdfOp>, code: u32, input: &[u8]) -> (r: Result<(), i32>)
        ensures
            ({
                let (after, done) = wdf::exchange_run(old(io)@, code, input@, 0);
                final(io)@ == after && r == without_data(outcome(done))
            }),
            final(self).is_open() == old(self).is_open(),
    {
        let mut empty: Vec<u8> = Vec::new();
        self.ioctl_in_out(io, code, input, &mut empty)
    }

    fn ioctl_in_out(
        &mut self,
        io: &mut Session<WdfOp>,
        code: u32,
        input: &[u8],
        output: &mut Vec<u8>,
    ) -> (r: Result<(), i32>)
        ensures
            ({
                let (after, done) = wdf::exchange_run(old(io)@, code, input@, old(output)@.len());
                final(io)@ == after && r == without_data(outcome(done)) && final(output)@
                    == match outcome(done) {
                    Ok(bytes) => bytes,
                    Err(_) => old(output)@,
                }
            }),
            final(output)@.len() == old(output)@.len(),
            final(self).is_open() == old(self).is_open(),
    {
        let done = exchange(io, code, input, output.len());
        if done.status >= 0 {
            *output = done.output;
            Ok(())
        } else {
            Err(done.status)
        }
    }

    /// Closes and deletes the node, once.
    pub fn close(&mut self, io: &mut Session<WdfOp>)
        ensures
            final(io)@ == if old(self).is_open() {
                old(io)@.tell(WdfOp::TargetClose).tell(WdfOp::Delete(Object::Target))
            } else {
                old(io)@
            },
            !final(self).is_open(),
    {
        if self.open {
            io.tell(WdfOp::TargetClose);
            io.tell(WdfOp::Delete(Object::Target));
            self.open = false;
        }
    }
}

#[verifier::opaque]
pub open spec fn probe_open_run(io: Io<WdfOp>) -> (Io<WdfOp>, i32, i32, u8) {
    let (io, grant) = wdf::exchange_run(
        io,
        IOCTL_SPMI_SUPERUSER_GRANT,
        grant_frame(SPMI_PERI_USBIN),
        0,
    );
    if !grant.made {
        (io, grant.status, (-1) as i32, 0)
    } else {
        let (io, read) = wdf::roomy_exchange_run(
            io,
            IOCTL_SPMI_SUPERUSER_READ,
            transfer_frame(SPMI_SID_USBIN, APSD_PROBE_REG, 1),
            1,
        );
        (io, grant.status, read.status, if read.status >= 0 {
            read.output[0]
        } else {
            0
        })
    }
}

/// Claims the USBIN block and reads its APSD status on an open node. The read is
/// tried after a refused claim too.
fn probe_open(io: &mut Session<WdfOp>) -> (r: (i32, i32, u8))
    ensures
        (final(io)@, r.0, r.1, r.2) == probe_open_run(old(io)@),
{
    proof {
        reveal(probe_open_run);
    }
    let claim = build_grant(SPMI_PERI_USBIN);
    let grant = exchange(io, IOCTL_SPMI_SUPERUSER_GRANT, claim.as_slice(), 0);
    if !grant.made {
        return (grant.status, -1, 0);
    }
    let header = build_transfer(SPMI_SID_USBIN, APSD_PROBE_REG, 1);
    let read = roomy_exchange(io, IOCTL_SPMI_SUPERUSER_READ, header.as_slice(), 1);
    let value: u8 = if read.status >= 0 {
        read.output[0]
    } else {
        0
    };
    (grant.status, read.status, value)
}

#[verifier::opaque]
pub open spec fn probe_superuser_apsd_run(io: Io<WdfOp>) -> (Io<WdfOp>, SuperuserApsdProbe) {
    let (io, open_status) = open_run(io);
    if open_status < 0 {
        (
            io,
            SuperuserApsdProbe {
                open_status,
                grant_status: (-1) as i32,
                read_status: (-1) as i32,
                value: 0,
            },
        )
    } else {
        let (io, grant_status, read_status, value) = probe_open_run(io);
        (
            io.tell(WdfOp::TargetClose).tell(WdfOp::Delete(Object::Target)),
            SuperuserApsdProbe { open_status, grant_status, read_status, value },
        )
    }
}

/// Opens the node, claims the USBIN block, reads its APSD status once and closes
/// the node again.
pub fn probe_superuser_apsd(io: &mut Session<WdfOp>) -> (r: SuperuserApsdProbe)
    ensures
        (final(io)@, r) == probe_superuser_apsd_run(old(io)@),
{
    proof {
        reveal(probe_superuser_apsd_run);
    }
    let open_status: i32 = open_node(io);
    if open_status < 0 {
        return SuperuserApsdProbe { open_status, grant_status: -1, read_status: -1, value: 0 };
    }
    let (grant_status, read_status, value): (i32, i32, u8) = probe_open(io);
    io.tell(WdfOp::TargetClose);
    io.tell(WdfOp::Delete(Object::Target));
    SuperuserApsdProbe { open_status, grant_status, read_status, value }
}

/// A finished probe leaves nothing alive that was not alive before it.
pub proof fn law_apsd_probe_leaks_nothing(io: Io<WdfOp>)
    requires
        wdf::aligned(io),
        wdf::live(io) == Set::<Object>::empty(),
    ensures
        probe_superuser_apsd_run(io).0.pending is None ==> wdf::live(probe_superuser_apsd_run(io).0)
            == Set::<Object>::empty(),
{
    broadcast use wdf::lemma_live_ask;

    reveal(probe_superuser_apsd_run);
    reveal(open_run);
    reveal(probe_open_run);
    let start = wdf::live(io);
    assert(start.insert(Object::Target).remove(Object::Target) =~= start);
    let (io1, status) = open_run(io);
    if io1.pending is None && status >= 0 {
        wdf::law_exchange_leaks_nothing(
            io1,
            IOCTL_SPMI_SUPERUSER_GRANT,
            grant_frame(SPMI_PERI_USBIN),
            0,
        );
        let (io2, grant) = wdf::exchange_run(
            io1,
            IOCTL_SPMI_SUPERUSER_GRANT,
            grant_frame(SPMI_PERI_USBIN),
            0,
        );
        if io2.pending is None && grant.made {
            wdf::law_roomy_exchange_leaks_nothing(
                io2,
                IOCTL_SPMI_SUPERUSER_READ,
                transfer_frame(SPMI_SID_USBIN, APSD_PROBE_REG, 1),
                1,
            );
        }
        if io2.pending is Some {
            reveal(wdf::roomy_exchange_run);
        }
    }
}

/// The node is claimed by a frame of four bytes: a one, a zero and the peripheral, low
/// byte first.
pub proof fn law_claim_names_the_peripheral(peri: u16)
    ensures
        grant_frame(peri).len() == 4,
        grant_frame(peri)[0] == 1 && grant_frame(peri)[1] == 0,
        grant_frame(peri)[2] + 256 * grant_frame(peri)[3] == peri,
{
}

/// A transfer has a head of twelve bytes: the register and the slave from the fourth on,
/// the length in the eighth, and zeros.
pub proof fn law_head_names_the_register(sid: u8, reg: u16, len: nat)
    requires
        len <= 255,
    ensures
        ({
            let head = transfer_frame(sid, reg, len);
            &&& head.len() == 12
            &&& head[0] == 0 && head[1] == 0 && head[2] == 0 && head[3] == 0
            &&& head[4] + 256 * head[5] == reg && head[6] == sid && head[7] == 0
            &&& head[8] == len
            &&& head[9] == 0 && head[10] == 0 && head[11] == 0
        }),
{
    law_frame_holds_the_address(sid, reg, len);
}

/// A read sends the head under the read code for as many bytes as it wants, a write the
/// head and the data under the write code; a length of none or of more than 255 is
/// refused at once. A failed exchange answers with its status.
pub proof fn law_transfers_use_their_codes(
    io: Io<WdfOp>,
    sid: u8,
    reg: u16,
    len: usize,
    data: Seq<u8>,
)
    ensures
        ({
            let (after, r) = read_bytes_run(io, sid, reg, len);
            let (made, e) = wdf::exchange_run(
                io,
                0x85B5_240C,
                transfer_frame(sid, reg, len as nat),
                len as nat,
            );
            &&& len == 0 || len > 255 ==> after == io && r is Err && r->Err_0 == -1073741811
            &&& 1 <= len <= 255 ==> after == made && (r is Ok <==> e.status >= 0) && (r is Ok
                ==> r->Ok_0 == e.output) && (r is Err ==> r->Err_0 == e.status)
        }),
        ({
            let (after, r) = write_bytes_run(io, sid, reg, data);
            let (made, e) = wdf::exchange_run(
                io,
                0x85B5_2410,
                transfer_frame(sid, reg, data.len()) + data,
                0,
            );
            &&& data.len() == 0 || data.len() > 255 ==> after == io && r is Err && r->Err_0
                == -1073741811
            &&& 1 <= data.len() <= 255 ==> after == made && (r is Ok <==> e.status >= 0) && (r
                is Err ==> r->Err_0 == e.status)
        }),
{
}

/// The node is a target that is created and opened under its name, and deleted again
/// where it does not open.
pub proof fn law_node_is_opened(io: Io<WdfOp>)
    requires
        io.pending is None,
        open_run(io).0.pending is None,
    ensures
        ({
            let (after, status) = open_run(io);
            let made = wdf::called(io, after);
            let created = wdf::status_of(wdf::answer(io, 0));
            let opened = wdf::status_of(wdf::answer(io, 1));
            &&& created < 0 ==> made == seq![WdfOp::TargetCreate] && status == created
            &&& created >= 0 ==> {
                &&& made.len() >= 2 && made[0] == WdfOp::TargetCreate && made[1] is TargetOpen
                &&& made[1]->TargetOpen_access == 0xC000_0000 && made[1]->TargetOpen_share == 7
                &&& made[1]->TargetOpen_name == TargetName::Device("\\Device\\Spmi\\SUPERUSER")
                &&& status == opened
                &&& opened >= 0 ==> made.len() == 2
                &&& opened < 0 ==> made.len() == 3 && made[2] == WdfOp::Delete(Object::Target)
            }
        }),
{
    broadcast use wdf::group_calls;

    reveal(open_run);
    wdf::lemma_called_nothing(io);
}

/// The probe opens the node, claims the charger block and reads the state of its
/// detection. It reports each status, and -1 for what was not reached; an opened node is
/// closed and deleted at the end.
pub proof fn law_probe_reads_the_detection(io: Io<WdfOp>)
    requires
        io.pending is None,
        probe_superuser_apsd_run(io).0.pending is None,
    ensures
        ({
            let (after, probe) = probe_superuser_apsd_run(io);
            let (opened, status) = open_run(io);
            let (claimed, grant) = wdf::exchange_run(
                opened,
                0x85B5_2418,
                grant_frame(SPMI_PERI_USBIN),
                0,
            );
            let (looked, read) = wdf::roomy_exchange_run(
                claimed,
                0x85B5_240C,
                transfer_frame(SPMI_SID_USBIN, 0x1307, 1),
                1,
            );
            &&& probe.open_status == status
            &&& status < 0 ==> probe.grant_status == -1 && probe.read_status == -1 && probe.value
                == 0 && after == opened
            &&& status >= 0 ==> probe.grant_status == grant.status
            &&& status >= 0 && !grant.made ==> probe.read_status == -1 && probe.value == 0
                && wdf::called(claimed, after) == seq![
                WdfOp::TargetClose,
                WdfOp::Delete(Object::Target),
            ]
            &&& status >= 0 && grant.made ==> probe.read_status == read.status && (read.status < 0
                ==> probe.value == 0) && (read.status >= 0 ==> probe.value == read.output[0])
                && wdf::called(looked, after) == seq![
                WdfOp::TargetClose,
                WdfOp::Delete(Object::Target),
            ]
        }),
{
    broadcast use wdf::group_calls;

    reveal(probe_superuser_apsd_run);
    reveal(probe_open_run);
    let opened = open_run(io).0;
    let (claimed, grant) = wdf::exchange_run(
        opened,
        IOCTL_SPMI_SUPERUSER_GRANT,
        grant_frame(SPMI_PERI_USBIN),
        0,
    );
    let looked = wdf::roomy_exchange_run(
        claimed,
        IOCTL_SPMI_SUPERUSER_READ,
        transfer_frame(SPMI_SID_USBIN, APSD_PROBE_REG, 1),
        1,
    ).0;
    wdf::lemma_called_nothing(claimed);
    wdf::lemma_called_nothing(looked);
}

} // verus!
