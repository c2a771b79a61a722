//! What the callbacks outside a tick write to the PMIC.
//!
//! The lemmas carry a rule on the writes through the preparation of the hardware and
//! through every request; the law at the end puts them together.
use crate::battery::Battery;
use crate::connections::{self, Connection};
use crate::exchange::Op;
use crate::gauge;
use crate::ioctl::{
    Ln8000ChargeRequest, Ln8000LimitsRequest, Ln8000ModeRequest, Ln8000RegRequest,
    Ln8000Sample,
};
use crate::landing;
use crate::params::{self, DriverParams};
use crate::prepare;
use crate::pump::Tuning;
use crate::requests::{self, Asked};
use crate::session::Io;
use crate::state::{DriverState, FccPolicy};
use crate::writes::{self, Rule};
use vstd::prelude::*;

verus! {

// ---------------------------------------------------------------------------
// Preparation
// ---------------------------------------------------------------------------
pub broadcast proof fn lemma_collect_connections_obeys(
    from: Io<Op>,
    io: Io<Op>,
    index: u32,
    found: Seq<Connection>,
    rule: Rule,
)
    requires
        writes::obeys(from, io, rule),
    ensures
        #[trigger] writes::obeys(
            from,
            connections::collect_connections_run(io, index, found).0,
            rule,
        ),
    decreases io.replies.len() - io.next,
{
    broadcast use writes::group_obeys;

    let (after, descriptor) = io.descriptor(Op::Descriptor(index));
    if descriptor is Some {
        lemma_collect_connections_obeys(
            from,
            after,
            index.saturating_add(1),
            if descriptor->0.connection && found.len() < crate::connections::MAX_CONNECTIONS {
                found.push(connections::connection_of(descriptor->0))
            } else {
                found
            },
            rule,
        );
    }
}

pub broadcast proof fn lemma_mark_connections_obeys(
    from: Io<Op>,
    io: Io<Op>,
    connections: Seq<Connection>,
    rule: Rule,
)
    requires
        writes::obeys(from, io, rule),
    ensures
        #[trigger] writes::obeys(from, connections::mark_connections_run(io, connections), rule),
    decreases connections.len(),
{
    broadcast use writes::group_obeys;

    if connections.len() > 0 {
        lemma_mark_connections_obeys(from, io, connections.drop_last(), rule);
    }
}

pub broadcast proof fn lemma_scan_variants_obeys(
    from: Io<Op>,
    io: Io<Op>,
    hub: bool,
    variant: u8,
    working: Option<u8>,
    rule: Rule,
)
    requires
        writes::obeys(from, io, rule),
    ensures
        #[trigger] writes::obeys(
            from,
            prepare::scan_variants_run(io, hub, variant, working).0,
            rule,
        ),
    decreases crate::prepare::VARIANTS - variant,
{
    broadcast use writes::group_obeys;

    if variant < crate::prepare::VARIANTS {
        let (io, works) = prepare::try_variant_run(io, hub, variant);
        lemma_scan_variants_obeys(
            from,
            io,
            hub,
            (variant + 1) as u8,
            if works && working is None {
                Some(variant)
            } else {
                working
            },
            rule,
        );
    }
}

pub broadcast proof fn lemma_probe_parent_obeys(
    from: Io<Op>,
    io: Io<Op>,
    peripheral_id: u64,
    rule: Rule,
)
    requires
        writes::obeys(from, io, rule),
    ensures
        #[trigger] writes::obeys(from, prepare::probe_parent_run(io, peripheral_id), rule),
{
    broadcast use writes::group_obeys;

    reveal(prepare::probe_parent_run);
}

pub broadcast proof fn lemma_probe_lock_obeys(from: Io<Op>, io: Io<Op>, rule: Rule)
    requires
        writes::obeys(from, io, rule),
    ensures
        #[trigger] writes::obeys(from, prepare::probe_lock_run(io), rule),
{
    broadcast use writes::group_obeys;

    reveal(prepare::probe_lock_run);
}

pub broadcast proof fn lemma_probe_line_obeys(from: Io<Op>, io: Io<Op>, rule: Rule)
    requires
        writes::obeys(from, io, rule),
    ensures
        #[trigger] writes::obeys(from, prepare::probe_line_run(io), rule),
{
    broadcast use {writes::group_obeys, lemma_scan_variants_obeys, lemma_probe_lock_obeys};

    reveal(prepare::probe_line_run);
}

pub broadcast proof fn lemma_probe_candidates_obeys(from: Io<Op>, io: Io<Op>, rule: Rule)
    requires
        writes::obeys(from, io, rule),
    ensures
        #[trigger] writes::obeys(from, prepare::probe_candidates_run(io), rule),
{
    broadcast use writes::group_obeys;

    reveal(prepare::probe_candidates_run);
}

pub broadcast proof fn lemma_probe_hub_obeys(
    from: Io<Op>,
    io: Io<Op>,
    peripheral_id: u64,
    rule: Rule,
)
    requires
        writes::obeys(from, io, rule),
    ensures
        #[trigger] writes::obeys(from, prepare::probe_hub_run(io, peripheral_id).0, rule),
{
    broadcast use {writes::group_obeys, lemma_scan_variants_obeys, lemma_probe_candidates_obeys};

    reveal(prepare::probe_hub_run);
}

pub broadcast proof fn lemma_probe_spmi_names_obeys(from: Io<Op>, io: Io<Op>, rule: Rule)
    requires
        writes::obeys(from, io, rule),
    ensures
        #[trigger] writes::obeys(from, prepare::probe_spmi_names_run(io), rule),
{
    broadcast use writes::group_obeys;

    reveal(prepare::probe_spmi_names_run);
}

pub broadcast proof fn lemma_probe_shared_names_obeys(from: Io<Op>, io: Io<Op>, rule: Rule)
    requires
        writes::obeys(from, io, rule),
    ensures
        #[trigger] writes::obeys(from, prepare::probe_shared_names_run(io), rule),
{
    broadcast use writes::group_obeys;

    reveal(prepare::probe_shared_names_run);
}

pub broadcast proof fn lemma_probe_apsd_obeys(from: Io<Op>, io: Io<Op>, rule: Rule)
    requires
        writes::obeys(from, io, rule),
    ensures
        #[trigger] writes::obeys(from, prepare::probe_apsd_run(io), rule),
{
    broadcast use writes::group_obeys;

    reveal(prepare::probe_apsd_run);
}

pub broadcast proof fn lemma_probe_usbin_spmi_obeys(
    from: Io<Op>,
    io: Io<Op>,
    usbin_id: Option<u64>,
    rule: Rule,
)
    requires
        writes::obeys(from, io, rule),
    ensures
        #[trigger] writes::obeys(from, prepare::probe_usbin_spmi_run(io, usbin_id), rule),
{
    broadcast use writes::group_obeys;

    reveal(prepare::probe_usbin_spmi_run);
}

pub broadcast proof fn lemma_probe_all_obeys(
    from: Io<Op>,
    io: Io<Op>,
    peripheral_id: u64,
    usbin_id: Option<u64>,
    rule: Rule,
)
    requires
        writes::obeys(from, io, rule),
    ensures
        #[trigger] writes::obeys(from, prepare::probe_all_run(io, peripheral_id, usbin_id).0, rule),
{
    broadcast use {
        lemma_probe_parent_obeys,
        lemma_probe_line_obeys,
        lemma_probe_hub_obeys,
        lemma_probe_spmi_names_obeys,
        lemma_probe_shared_names_obeys,
        lemma_probe_apsd_obeys,
        lemma_probe_usbin_spmi_obeys,
    };

    reveal(prepare::probe_all_run);
}

pub broadcast proof fn lemma_find_ways_obeys(from: Io<Op>, io: Io<Op>, rule: Rule)
    requires
        writes::obeys(from, io, rule),
    ensures
        #[trigger] writes::obeys(from, prepare::find_ways_run(io).0, rule),
{
    broadcast use {
        writes::group_obeys,
        lemma_collect_connections_obeys,
        lemma_mark_connections_obeys,
    };

    reveal(prepare::find_ways_run);
}

pub broadcast proof fn lemma_mark_profile_obeys(
    from: Io<Op>,
    io: Io<Op>,
    selected: Option<u32>,
    rule: Rule,
)
    requires
        writes::obeys(from, io, rule),
    ensures
        #[trigger] writes::obeys(from, params::mark_profile_run(io, selected), rule),
{
    broadcast use writes::group_obeys;

    reveal(params::mark_profile_run);
}

pub broadcast proof fn lemma_read_profile_obeys(from: Io<Op>, io: Io<Op>, rule: Rule)
    requires
        writes::obeys(from, io, rule),
    ensures
        #[trigger] writes::obeys(from, params::read_profile_run(io).0, rule),
{
    broadcast use writes::group_obeys;

    reveal(params::read_profile_run);
}

pub broadcast proof fn lemma_read_limits_obeys(from: Io<Op>, io: Io<Op>, rule: Rule)
    requires
        writes::obeys(from, io, rule),
    ensures
        #[trigger] writes::obeys(from, params::read_limits_run(io), rule),
{
    broadcast use writes::group_obeys;

    reveal(params::read_limits_run);
}

pub broadcast proof fn lemma_read_parameters_obeys(from: Io<Op>, io: Io<Op>, rule: Rule)
    requires
        writes::obeys(from, io, rule),
    ensures
        #[trigger] writes::obeys(from, params::read_parameters_run(io).0, rule),
{
    broadcast use {
        writes::group_obeys,
        lemma_mark_profile_obeys,
        lemma_read_profile_obeys,
        lemma_read_limits_obeys,
    };

    reveal(params::read_parameters_run);
    reveal(params::read_values_run);
}

pub broadcast proof fn lemma_prime_battery_obeys(
    from: Io<Op>,
    io: Io<Op>,
    battery: Battery,
    peak_ua: u32,
    tuning: Tuning,
    rule: Rule,
)
    requires
        writes::obeys(from, io, rule),
    ensures
        #[trigger] writes::obeys(
            from,
            prepare::prime_battery_run(io, battery, peak_ua, tuning).0,
            rule,
        ),
{
    broadcast use {writes::group_obeys, writes::lemma_update_battery_obeys};

    reveal(prepare::prime_battery_run);
    reveal(prepare::first_readings_run);
    reveal(prepare::read_first_run);
}

pub broadcast proof fn lemma_start_service_obeys(
    from: Io<Op>,
    io: Io<Op>,
    state: DriverState,
    params: DriverParams,
    tuning: Tuning,
    rule: Rule,
)
    requires
        writes::obeys(from, io, rule),
        rule !is KeepClass,
    ensures
        #[trigger] writes::obeys(
            from,
            prepare::start_service_run(io, state, params, tuning).0,
            rule,
        ),
{
    broadcast use {
        writes::group_obeys,
        writes::lemma_negotiate_and_rearm_obeys,
        lemma_prime_battery_obeys,
    };

    reveal(prepare::start_service_run);
    reveal(prepare::start_battery_run);
    reveal(prepare::hold_power_run);
}

pub broadcast proof fn lemma_prepare_hardware_obeys(
    from: Io<Op>,
    io: Io<Op>,
    state: DriverState,
    tuning: Tuning,
    rule: Rule,
)
    requires
        writes::obeys(from, io, rule),
        rule !is KeepClass,
    ensures
        #[trigger] writes::obeys(
            from,
            prepare::evt_prepare_hardware_run(io, state, tuning).0,
            rule,
        ),
{
    broadcast use {
        writes::group_obeys,
        lemma_find_ways_obeys,
        lemma_read_parameters_obeys,
        lemma_probe_all_obeys,
        lemma_start_service_obeys,
    };

    reveal(prepare::evt_prepare_hardware_run);
    reveal(prepare::open_chip_run);
}

// ---------------------------------------------------------------------------
// Requests
// ---------------------------------------------------------------------------
pub broadcast proof fn lemma_handle_get_status_obeys(
    from: Io<Op>,
    io: Io<Op>,
    state: DriverState,
    tuning: Tuning,
    rule: Rule,
)
    requires
        writes::obeys(from, io, rule),
    ensures
        #[trigger] writes::obeys(from, requests::handle_get_status_run(io, state, tuning).0, rule),
{
    broadcast use {writes::group_obeys, writes::lemma_update_battery_obeys};

    reveal(requests::handle_get_status_run);
    reveal(requests::chip_part_run);
    reveal(requests::readings_part_run);
    reveal(requests::battery_part_run);
}

pub broadcast proof fn lemma_handle_read_reg_obeys(
    from: Io<Op>,
    io: Io<Op>,
    state: DriverState,
    request: Ln8000RegRequest,
    rule: Rule,
)
    requires
        writes::obeys(from, io, rule),
    ensures
        #[trigger] writes::obeys(from, requests::handle_read_reg_run(io, state, request).0, rule),
{
    broadcast use writes::group_obeys;

    reveal(requests::handle_read_reg_run);
}

pub broadcast proof fn lemma_handle_write_reg_obeys(
    from: Io<Op>,
    io: Io<Op>,
    state: DriverState,
    request: Ln8000RegRequest,
    rule: Rule,
)
    requires
        writes::obeys(from, io, rule),
    ensures
        #[trigger] writes::obeys(from, requests::handle_write_reg_run(io, state, request).0, rule),
{
    broadcast use writes::group_obeys;

    reveal(requests::handle_write_reg_run);
}

pub broadcast proof fn lemma_handle_set_limits_obeys(
    from: Io<Op>,
    io: Io<Op>,
    pump_open: bool,
    request: Ln8000LimitsRequest,
    rule: Rule,
)
    requires
        writes::obeys(from, io, rule),
    ensures
        #[trigger] writes::obeys(
            from,
            requests::handle_set_limits_run(io, pump_open, request).0,
            rule,
        ),
{
    broadcast use writes::group_obeys;

    reveal(requests::handle_set_limits_run);
    reveal(requests::set_current_run);
}

pub broadcast proof fn lemma_set_mode_obeys(
    from: Io<Op>,
    io: Io<Op>,
    pump_open: bool,
    request: Ln8000ModeRequest,
    rule: Rule,
)
    requires
        writes::obeys(from, io, rule),
    ensures
        #[trigger] writes::obeys(from, requests::set_mode_run(io, pump_open, request).0, rule),
{
    broadcast use writes::group_obeys;

    reveal(requests::set_mode_run);
}

pub broadcast proof fn lemma_handle_get_sessions_obeys(from: Io<Op>, io: Io<Op>, rule: Rule)
    requires
        writes::obeys(from, io, rule),
    ensures
        #[trigger] writes::obeys(from, requests::handle_get_sessions_run(io).0, rule),
{
    broadcast use writes::group_obeys;

    reveal(requests::handle_get_sessions_run);
}

pub broadcast proof fn lemma_handle_set_charge_obeys(
    from: Io<Op>,
    io: Io<Op>,
    state: DriverState,
    request: Ln8000ChargeRequest,
    tuning: Tuning,
    rule: Rule,
)
    requires
        writes::obeys(from, io, rule),
    ensures
        #[trigger] writes::obeys(
            from,
            requests::handle_set_charge_run(io, state, request, tuning).0,
            rule,
        ),
{
    broadcast use {
        writes::group_obeys,
        writes::lemma_start_charge_obeys,
        writes::lemma_note_attempt_obeys,
    };

    reveal(requests::handle_set_charge_run);
    reveal(requests::switch_charge_run);
}

pub broadcast proof fn lemma_handle_run_hvdcp_obeys(
    from: Io<Op>,
    io: Io<Op>,
    state: DriverState,
    command: u8,
    tuning: Tuning,
    rule: Rule,
)
    requires
        writes::obeys(from, io, rule),
        rule !is KeepClass,
    ensures
        #[trigger] writes::obeys(
            from,
            requests::handle_run_hvdcp_run(io, state, command, tuning).0,
            rule,
        ),
{
    broadcast use {writes::group_obeys, writes::lemma_negotiate_and_rearm_obeys};

    reveal(requests::handle_run_hvdcp_run);
}

pub broadcast proof fn lemma_take_samples_obeys(
    from: Io<Op>,
    io: Io<Op>,
    limit: nat,
    taken: Seq<Ln8000Sample>,
    rule: Rule,
)
    requires
        writes::obeys(from, io, rule),
    ensures
        #[trigger] writes::obeys(from, requests::take_samples_run(io, limit, taken).0, rule),
    decreases limit - taken.len(),
{
    broadcast use writes::group_obeys;

    if taken.len() < limit {
        let (io, sample) = io.sample(Op::TelemetryAt(taken.len() as usize));
        if sample is Some {
            lemma_take_samples_obeys(
                from,
                io,
                limit,
                taken.push(requests::reported(sample->0)),
                rule,
            );
        }
    }
}

pub broadcast proof fn lemma_device_control_obeys(
    from: Io<Op>,
    io: Io<Op>,
    state: DriverState,
    asked: Asked,
    tuning: Tuning,
    rule: Rule,
)
    requires
        writes::obeys(from, io, rule),
        rule !is KeepClass,
    ensures
        #[trigger] writes::obeys(
            from,
            requests::evt_io_device_control_run(io, state, asked, tuning).0,
            rule,
        ),
{
    broadcast use {
        lemma_handle_get_status_obeys,
        lemma_handle_read_reg_obeys,
        lemma_handle_write_reg_obeys,
        lemma_handle_set_limits_obeys,
        lemma_set_mode_obeys,
        lemma_handle_set_charge_obeys,
        lemma_handle_run_hvdcp_obeys,
        lemma_handle_get_sessions_obeys,
        lemma_take_samples_obeys,
    };

    reveal(requests::evt_io_device_control_run);
}

// ---------------------------------------------------------------------------
// Laws
// ---------------------------------------------------------------------------
/// Outside a tick nobody writes the buck's current: not the preparation of the
/// hardware, no request, not the poll of the gauge, not the release. And none of them
/// touches what is remembered of it, but for the setting that the preparation reads.
pub proof fn law_only_a_tick_writes_the_buck(
    io: Io<Op>,
    state: DriverState,
    asked: Asked,
    tuning: Tuning,
)
    ensures
        ({
            let (after, left, _) = prepare::evt_prepare_hardware_run(io, state, tuning);
            &&& writes::obeys(io, after, Rule::LeaveBuck)
            &&& left.fcc == (FccPolicy { cfg_raw: left.fcc.cfg_raw, ..state.fcc })
        }),
        ({
            let (after, left, _) = requests::evt_io_device_control_run(io, state, asked, tuning);
            &&& writes::obeys(io, after, Rule::LeaveBuck)
            &&& left.fcc == state.fcc
        }),
        ({
            let (after, left) = prepare::evt_release_hardware_run(io, state);
            &&& writes::obeys(io, after, Rule::LeaveBuck)
            &&& left.fcc == state.fcc
        }),
        writes::obeys(
            io,
            gauge::read_gauge_if_due_run(io, state.device_ready).0,
            Rule::LeaveBuck,
        ),
{
    broadcast use {writes::group_obeys, lemma_prepare_hardware_obeys, lemma_device_control_obeys};

    writes::lemma_obeys_at_first(io, Rule::LeaveBuck);
    reveal(prepare::evt_prepare_hardware_run);
    reveal(prepare::open_chip_run);
    reveal(prepare::start_service_run);
    reveal(prepare::evt_release_hardware_run);
    reveal(landing::negotiate_and_rearm_run);
    reveal(landing::run_hvdcp_and_land_run);
    reveal(requests::evt_io_device_control_run);
    reveal(requests::handle_get_status_run);
    reveal(requests::handle_read_reg_run);
    reveal(requests::handle_write_reg_run);
    reveal(requests::handle_set_charge_run);
    reveal(requests::handle_run_hvdcp_run);
}

} // verus!
