//! The device's connections: which one leads to the pump, which to the PMIC.
use crate::exchange::{Descriptor, Op, Reply};
use crate::session::{Io, Session};
use crate::trace;
use vstd::prelude::*;

verus! {

/// Class of a serial connection.
pub const CONNECTION_CLASS_SERIAL: u32 = 0x02;

/// An I2C connection.
pub const CONNECTION_TYPE_SERIAL_I2C: u32 = 0x01;

/// An SPI connection.
pub const CONNECTION_TYPE_SERIAL_SPI: u32 = 0x02;

/// The vendor's SPMI connection.
pub const CONNECTION_TYPE_SERIAL_SPMI_VENDOR: u32 = 0xC1;

/// Most connections that are kept.
pub const MAX_CONNECTIONS: usize = 4;

/// One connection.
#[derive(Debug, Clone, Copy, PartialEq, Eq, Structural)]
pub struct Connection {
    /// Its id.
    pub id: u64,
    /// Its class.
    pub class: u32,
    /// Its type.
    pub kind: u32,
}

/// The connection that a descriptor describes.
pub open spec fn connection_of(descriptor: Descriptor) -> Connection {
    Connection {
        id: (descriptor.id_high * 0x1_0000_0000 + descriptor.id_low) as u64,
        class: descriptor.class as u32,
        kind: descriptor.kind as u32,
    }
}

/// The first connections, from a descriptor on and after those already found.
pub open spec fn collect_connections_run(io: Io<Op>, index: u32, found: Seq<Connection>) -> (
    Io<Op>,
    Seq<Connection>,
)
    decreases io.replies.len() - io.next,
{
    let (after, descriptor) = io.descriptor(Op::Descriptor(index));
    match descriptor {
        None => (after, found),
        Some(descriptor) => collect_connections_run(
            after,
            index.saturating_add(1),
            if descriptor.connection && found.len() < MAX_CONNECTIONS {
                found.push(connection_of(descriptor))
            } else {
                found
            },
        ),
    }
}

/// Collects the first connections of the resource list, in its order.
pub fn collect_connections(io: &mut Session<Op>) -> (found: Vec<Connection>)
    ensures
        (final(io)@, found@) == collect_connections_run(old(io)@, 0, Seq::empty()),
        found@.len() <= MAX_CONNECTIONS,
{
    let mut found: Vec<Connection> = Vec::new();
    let mut index: u32 = 0;
    loop
        invariant
            collect_connections_run(io@, index, found@) == collect_connections_run(
                old(io)@,
                0,
                Seq::empty(),
            ),
            found@.len() <= MAX_CONNECTIONS,
        decreases io@.replies.len() - io@.next,
    {
        match io.descriptor(Op::Descriptor(index)) {
            None => {
                return found;
            },
            Some(descriptor) => {
                if descriptor.connection && found.len() < MAX_CONNECTIONS {
                    let id: u64 = descriptor.id_high as u64 * 0x1_0000_0000
                        + descriptor.id_low as u64;
                    found.push(
                        Connection {
                            id,
                            class: descriptor.class as u32,
                            kind: descriptor.kind as u32,
                        },
                    );
                }
                index = index.saturating_add(1);
            },
        }
    }
}

/// The id of the first connection that satisfies a predicate.
pub open spec fn first_id(connections: Seq<Connection>, wanted: spec_fn(Connection) -> bool) -> Option<
    u64,
>
    decreases connections.len(),
{
    if connections.len() == 0 {
        None
    } else if wanted(connections[0]) {
        Some(connections[0].id)
    } else {
        first_id(connections.skip(1), wanted)
    }
}

/// One step of [`first_id`].
proof fn lemma_first_id_step(
    connections: Seq<Connection>,
    wanted: spec_fn(Connection) -> bool,
    index: int,
)
    requires
        0 <= index < connections.len(),
    ensures
        first_id(connections.skip(index), wanted) == if wanted(connections[index]) {
            Some(connections[index].id)
        } else {
            first_id(connections.skip(index + 1), wanted)
        },
{
    assert(connections.skip(index).skip(1) == connections.skip(index + 1));
}

/// A serial connection of a type.
pub open spec fn serial(kind: u32) -> spec_fn(Connection) -> bool {
    |c: Connection| c.class == CONNECTION_CLASS_SERIAL && c.kind == kind
}

fn first_serial(connections: &[Connection], kind: u32) -> (id: Option<u64>)
    ensures
        id == first_id(connections@, serial(kind)),
{
    let mut index: usize = 0;
    assert(connections@.skip(0) == connections@);
    while index < connections.len()
        invariant
            index <= connections@.len(),
            first_id(connections@.skip(index as int), serial(kind)) == first_id(
                connections@,
                serial(kind),
            ),
        decreases connections@.len() - index,
    {
        proof {
            lemma_first_id_step(connections@, serial(kind), index as int);
        }
        let c = connections[index];
        if c.class == CONNECTION_CLASS_SERIAL && c.kind == kind {
            return Some(c.id);
        }
        index = index + 1;
    }
    None
}

/// What [`select_i2c_connection`] selects.
pub open spec fn i2c_connection(connections: Seq<Connection>) -> Option<u64> {
    let i2c = first_id(connections, serial(CONNECTION_TYPE_SERIAL_I2C));
    if i2c is Some {
        i2c
    } else {
        first_id(connections, serial(CONNECTION_TYPE_SERIAL_SPI))
    }
}

/// The pump's connection: the first I2C one, else the first SPI one.
pub fn select_i2c_connection(connections: &[Connection]) -> (id: Option<u64>)
    ensures
        id == i2c_connection(connections@),
{
    let i2c = first_serial(connections, CONNECTION_TYPE_SERIAL_I2C);
    if i2c.is_some() {
        i2c
    } else {
        first_serial(connections, CONNECTION_TYPE_SERIAL_SPI)
    }
}

/// A serial connection other than the pump's, and optionally none of its type.
pub open spec fn other_serial(i2c_id: u64, any_kind: bool) -> spec_fn(Connection) -> bool {
    |c: Connection|
        c.id != i2c_id && c.class == CONNECTION_CLASS_SERIAL && (any_kind || c.kind
            != CONNECTION_TYPE_SERIAL_I2C)
}

fn first_other(connections: &[Connection], i2c_id: u64, any_kind: bool) -> (id: Option<u64>)
    ensures
        id == first_id(connections@, other_serial(i2c_id, any_kind)),
{
    let mut index: usize = 0;
    assert(connections@.skip(0) == connections@);
    while index < connections.len()
        invariant
            index <= connections@.len(),
            first_id(connections@.skip(index as int), other_serial(i2c_id, any_kind)) == first_id(
                connections@,
                other_serial(i2c_id, any_kind),
            ),
        decreases connections@.len() - index,
    {
        proof {
            lemma_first_id_step(connections@, other_serial(i2c_id, any_kind), index as int);
        }
        let c = connections[index];
        if c.id != i2c_id && c.class == CONNECTION_CLASS_SERIAL && (any_kind || c.kind
            != CONNECTION_TYPE_SERIAL_I2C) {
            return Some(c.id);
        }
        index = index + 1;
    }
    None
}

/// What [`select_usbin_connection`] selects.
pub open spec fn usbin_connection(connections: Seq<Connection>, i2c_id: u64) -> Option<u64> {
    let other = first_id(connections, other_serial(i2c_id, false));
    if other is Some {
        other
    } else {
        first_id(connections, other_serial(i2c_id, true))
    }
}

/// The PMIC's connection: the first serial one that is neither the pump's nor
/// I2C, else the first that is not the pump's.
pub fn select_usbin_connection(connections: &[Connection], i2c_id: u64) -> (id: Option<u64>)
    ensures
        id == usbin_connection(connections@, i2c_id),
{
    let other = first_other(connections, i2c_id, false);
    if other.is_some() {
        other
    } else {
        first_other(connections, i2c_id, true)
    }
}

proof fn lemma_first_id_is_member(connections: Seq<Connection>, wanted: spec_fn(Connection) -> bool)
    ensures
        first_id(connections, wanted) matches Some(id) ==> exists|i: int|
            0 <= i < connections.len() && wanted(#[trigger] connections[i]) && connections[i].id
                == id,
        first_id(connections, wanted) is None ==> forall|i: int|
            0 <= i < connections.len() ==> !wanted(#[trigger] connections[i]),
    decreases connections.len(),
{
    if connections.len() > 0 {
        let rest = connections.skip(1);
        lemma_first_id_is_member(rest, wanted);
        if !wanted(connections[0]) {
            if let Some(id) = first_id(rest, wanted) {
                let i = choose|i: int|
                    0 <= i < rest.len() && wanted(#[trigger] rest[i]) && rest[i].id == id;
                assert(rest[i] == connections[i + 1]);
            } else {
                assert forall|i: int| 0 <= i < connections.len() implies !wanted(
                    #[trigger] connections[i],
                ) by {
                    if i > 0 {
                        assert(rest[i - 1] == connections[i]);
                    }
                }
            }
        } else {
            assert(wanted(connections[0]));
        }
    }
}

/// The PMIC's connection is a serial one of the list and never the pump's; it is
/// missing only where every serial connection is the pump's.
pub proof fn law_connections_are_distinct(connections: Seq<Connection>, i2c_id: u64)
    ensures
        usbin_connection(connections, i2c_id) matches Some(id) ==> id != i2c_id && exists|i: int|
            0 <= i < connections.len() && (#[trigger] connections[i]).id == id
                && connections[i].class == CONNECTION_CLASS_SERIAL,
        usbin_connection(connections, i2c_id) is None ==> forall|i: int|
            0 <= i < connections.len() && (#[trigger] connections[i]).class
                == CONNECTION_CLASS_SERIAL ==> connections[i].id == i2c_id,
{
    lemma_first_id_is_member(connections, other_serial(i2c_id, false));
    lemma_first_id_is_member(connections, other_serial(i2c_id, true));
}

/// The names under which a connection is published: class, type, id.
#[verifier::allow_in_spec]
pub fn connection_names(index: usize) -> (r: (&'static str, &'static str, &'static str))
    returns
        (if index == 0 {
            ("C0Class", "C0Type", "C0Low")
        } else if index == 1 {
            ("C1Class", "C1Type", "C1Low")
        } else if index == 2 {
            ("C2Class", "C2Type", "C2Low")
        } else {
            ("C3Class", "C3Type", "C3Low")
        }),
{
    if index == 0 {
        ("C0Class", "C0Type", "C0Low")
    } else if index == 1 {
        ("C1Class", "C1Type", "C1Low")
    } else if index == 2 {
        ("C2Class", "C2Type", "C2Low")
    } else {
        ("C3Class", "C3Type", "C3Low")
    }
}

/// Low and high half of an id.
#[verifier::allow_in_spec]
pub fn id_halves(id: u64) -> (r: (u32, u32))
    returns
        ((id % 0x1_0000_0000) as u32, (id / 0x1_0000_0000) as u32),
{
    ((id % 0x1_0000_0000) as u32, (id / 0x1_0000_0000) as u32)
}

/// An id is made of its halves.
pub proof fn law_id_round_trip(descriptor: Descriptor)
    ensures
        id_halves(connection_of(descriptor).id) == (descriptor.id_low, descriptor.id_high),
{
}

pub open spec fn mark_connection_run(io: Io<Op>, index: usize, connection: Connection) -> Io<Op> {
    let names = connection_names(index);
    io.mark(names.0, connection.class).mark(names.1, connection.kind).mark(
        names.2,
        id_halves(connection.id).0,
    )
}

/// Publishes one connection.
fn mark_connection(io: &mut Session<Op>, index: usize, connection: &Connection)
    ensures
        final(io)@ == mark_connection_run(old(io)@, index, *connection),
{
    let names = connection_names(index);
    io.mark(names.0, connection.class);
    io.mark(names.1, connection.kind);
    io.mark(names.2, id_halves(connection.id).0);
}

pub open spec fn mark_connections_run(io: Io<Op>, connections: Seq<Connection>) -> Io<Op>
    decreases connections.len(),
{
    if connections.len() == 0 {
        io
    } else {
        mark_connection_run(
            mark_connections_run(io, connections.drop_last()),
            (connections.len() - 1) as usize,
            connections.last(),
        )
    }
}

/// Publishes the connections.
pub fn mark_connections(io: &mut Session<Op>, connections: &[Connection])
    ensures
        final(io)@ == mark_connections_run(old(io)@, connections@),
{
    let mut index: usize = 0;
    while index < connections.len()
        invariant
            index <= connections@.len(),
            io@ == mark_connections_run(old(io)@, connections@.take(index as int)),
        decreases connections@.len() - index,
    {
        assert(connections@.take(index + 1).drop_last() == connections@.take(index as int));
        mark_connection(io, index, &connections[index]);
        index = index + 1;
    }
    assert(connections@.take(index as int) == connections@);
}

/// The first that is wanted, with nothing wanted before it.
proof fn lemma_first_id_is_first(connections: Seq<Connection>, wanted: spec_fn(Connection) -> bool)
    ensures
        first_id(connections, wanted) matches Some(id) ==> exists|i: int|
            #![trigger connections[i]]
            0 <= i < connections.len() && wanted(connections[i]) && connections[i].id == id && (
            forall|j: int| 0 <= j < i ==> !wanted(#[trigger] connections[j])),
    decreases connections.len(),
{
    if connections.len() > 0 {
        let rest = connections.skip(1);
        lemma_first_id_is_first(rest, wanted);
        if wanted(connections[0]) {
            assert(connections[0].id == first_id(connections, wanted)->0);
        } else if first_id(rest, wanted) is Some {
            let id = first_id(rest, wanted)->0;
            let i = choose|i: int|
                #![trigger rest[i]]
                0 <= i < rest.len() && wanted(rest[i]) && rest[i].id == id && (forall|j: int|
                    0 <= j < i ==> !wanted(#[trigger] rest[j]));
            assert(rest[i] == connections[i + 1]);
            assert forall|j: int| 0 <= j < i + 1 implies !wanted(#[trigger] connections[j]) by {
                if j > 0 {
                    assert(rest[j - 1] == connections[j]);
                }
            }
        }
    }
}

/// Whether a connection is the first of a list in a class and of a type.
pub open spec fn first_serial_at(connections: Seq<Connection>, i: int, kind: u32) -> bool {
    &&& 0 <= i < connections.len()
    &&& connections[i].class == 2 && connections[i].kind == kind
    &&& forall|j: int|
        0 <= j < i ==> !((#[trigger] connections[j]).class == 2 && connections[j].kind == kind)
}

/// Whether a list holds no serial connection of a type.
pub open spec fn no_serial(connections: Seq<Connection>, kind: u32) -> bool {
    forall|j: int|
        0 <= j < connections.len() ==> !((#[trigger] connections[j]).class == 2
            && connections[j].kind == kind)
}

/// The pump is reached over the first I2C connection, over the first SPI one where there
/// is none, and over nothing where there is neither.
pub proof fn law_pump_is_on_the_first_i2c(connections: Seq<Connection>)
    ensures
        i2c_connection(connections) matches Some(id) ==> exists|i: int|
            #![trigger connections[i]]
            0 <= i < connections.len() && connections[i].id == id && (first_serial_at(
                connections,
                i,
                1,
            ) || first_serial_at(connections, i, 2) && no_serial(connections, 1)),
        i2c_connection(connections) is None <==> no_serial(connections, 1) && no_serial(
            connections,
            2,
        ),
{
    lemma_first_id_is_first(connections, serial(1));
    lemma_first_id_is_first(connections, serial(2));
    lemma_first_id_is_member(connections, serial(1));
    lemma_first_id_is_member(connections, serial(2));
    let i2c = first_id(connections, serial(1));
    if i2c is Some {
        let i = choose|i: int|
            #![trigger connections[i]]
            0 <= i < connections.len() && serial(1)(connections[i]) && connections[i].id == i2c->0
                && (forall|j: int| 0 <= j < i ==> !serial(1)(#[trigger] connections[j]));
        assert(first_serial_at(connections, i, 1));
    } else {
        let spi = first_id(connections, serial(2));
        if spi is Some {
            let i = choose|i: int|
                #![trigger connections[i]]
                0 <= i < connections.len() && serial(2)(connections[i]) && connections[i].id
                    == spi->0 && (forall|j: int| 0 <= j < i ==> !serial(2)(#[trigger] connections[j]));
            assert(first_serial_at(connections, i, 2));
        }
    }
}

/// The PMIC is reached over the first serial connection that is not the pump's and not
/// I2C, and only where there is none over the first that is not the pump's.
pub proof fn law_pmic_is_on_another_connection(connections: Seq<Connection>, i2c_id: u64)
    ensures
        ({
            let other = |c: Connection| c.class == 2 && c.id != i2c_id;
            let good = |c: Connection| c.class == 2 && c.id != i2c_id && c.kind != 1;
            let some = exists|i: int|
                0 <= i < connections.len() && good(#[trigger] connections[i]);
            usbin_connection(connections, i2c_id) matches Some(id) ==> exists|i: int|
                #![trigger connections[i]]
                0 <= i < connections.len() && connections[i].id == id && other(connections[i]) && (
                some ==> good(connections[i]) && (forall|j: int|
                    0 <= j < i ==> !good(#[trigger] connections[j]))) && (!some ==> forall|j: int|
                    0 <= j < i ==> !other(#[trigger] connections[j]))
        }),
{
    lemma_first_id_is_first(connections, other_serial(i2c_id, false));
    lemma_first_id_is_first(connections, other_serial(i2c_id, true));
    lemma_first_id_is_member(connections, other_serial(i2c_id, false));
    lemma_first_id_is_member(connections, other_serial(i2c_id, true));
    let narrow = first_id(connections, other_serial(i2c_id, false));
    let wide = first_id(connections, other_serial(i2c_id, true));
    if narrow is Some {
        let i = choose|i: int|
            #![trigger connections[i]]
            0 <= i < connections.len() && other_serial(i2c_id, false)(connections[i])
                && connections[i].id == narrow->0 && (forall|j: int|
                0 <= j < i ==> !other_serial(i2c_id, false)(#[trigger] connections[j]));
        assert(connections[i].id == narrow->0);
    } else if wide is Some {
        let i = choose|i: int|
            #![trigger connections[i]]
            0 <= i < connections.len() && other_serial(i2c_id, true)(connections[i])
                && connections[i].id == wide->0 && (forall|j: int|
                0 <= j < i ==> !other_serial(i2c_id, true)(#[trigger] connections[j]));
        assert(connections[i].id == wide->0);
    }
}

/// The descriptor in an answer.
pub open spec fn descriptor_of(reply: Reply) -> Option<Descriptor> {
    match reply {
        Reply::Descriptor(descriptor) => descriptor,
        _ => None,
    }
}

/// Whether a connection is that of a descriptor in a part of the list.
pub open spec fn is_listed(list: Seq<Reply>, from: int, to: int, connection: Connection) -> bool {
    exists|i: int|
        #![trigger list[i]]
        from <= i < to && descriptor_of(list[i])->0.connection && connection == connection_of(
            descriptor_of(list[i])->0,
        )
}

/// The list of descriptors is read up to its end. Its connections are kept, each as its
/// descriptor says, four at most.
pub proof fn law_connections_are_collected(io: Io<Op>, index: u32, found: Seq<Connection>)
    requires
        io.pending is None,
        found.len() <= 4,
        collect_connections_run(io, index, found).0.pending is None,
    ensures
        ({
            let (after, all) = collect_connections_run(io, index, found);
            &&& io.next < after.next <= io.replies.len() && after.replies == io.replies
            &&& found.is_prefix_of(all) && all.len() <= 4
            &&& descriptor_of(io.replies[after.next - 1]) is None
            &&& forall|i: int|
                #![trigger io.replies[i]]
                io.next <= i < after.next - 1 ==> descriptor_of(io.replies[i]) is Some
            &&& all.len() < 4 ==> forall|i: int|
                #![trigger io.replies[i]]
                io.next <= i < after.next - 1 && descriptor_of(io.replies[i])->0.connection
                    ==> all.contains(connection_of(descriptor_of(io.replies[i])->0))
            &&& forall|k: int|
                #![trigger all[k]]
                found.len() <= k < all.len() ==> is_listed(
                    io.replies,
                    io.next as int,
                    after.next - 1,
                    all[k],
                )
        }),
    decreases io.replies.len() - io.next,
{
    let (next, descriptor) = io.descriptor(Op::Descriptor(index));
    if let Some(descriptor) = descriptor {
        let more = if descriptor.connection && found.len() < 4 {
            found.push(connection_of(descriptor))
        } else {
            found
        };
        law_connections_are_collected(next, index.saturating_add(1), more);
        let (after, all) = collect_connections_run(next, index.saturating_add(1), more);
        assert(found.is_prefix_of(more));
        assert(io.replies[io.next as int] == next.replies[io.next as int]);
        if descriptor.connection && found.len() < 4 {
            assert(all[found.len() as int] == more[found.len() as int]);
            assert(all.contains(connection_of(descriptor)));
        }
        assert forall|k: int| #![trigger all[k]] found.len() <= k < all.len() implies is_listed(
            io.replies,
            io.next as int,
            after.next - 1,
            all[k],
        ) by {
            if k < more.len() {
                assert(all[k] == more[k]);
                assert(descriptor_of(io.replies[io.next as int]) == Some(descriptor));
            } else {
                assert(is_listed(next.replies, next.next as int, after.next - 1, all[k]));
            }
        }
    }
}

/// A connection is what its descriptor says, its id put together of two halves.
pub proof fn law_connection_is_described(descriptor: Descriptor)
    ensures
        connection_of(descriptor).id == descriptor.id_high * 0x1_0000_0000 + descriptor.id_low,
        connection_of(descriptor).class == descriptor.class,
        connection_of(descriptor).kind == descriptor.kind,
{
}

/// Each connection is published under its own names, with its class, its kind and the low
/// half of its id, in the order of the list.
pub proof fn law_connections_are_published(io: Io<Op>, connections: Seq<Connection>, last: Connection)
    requires
        io.pending is None,
        mark_connections_run(io, connections.push(last)).pending is None,
        connections.len() < usize::MAX,
    ensures
        ({
            let before = mark_connections_run(io, connections);
            let after = mark_connections_run(io, connections.push(last));
            let names = connection_names(connections.len() as usize);
            trace::published(before, after) == seq![
                (names.0, last.class),
                (names.1, last.kind),
                (names.2, (last.id % 0x1_0000_0000) as u32),
            ]
        }),
        mark_connections_run(io, Seq::empty()) == io,
{
    broadcast use trace::group_marks;

    let before = mark_connections_run(io, connections);
    assert(connections.push(last).drop_last() =~= connections);
    trace::lemma_published_nothing(before);
}

} // verus!
