//! The non-interactive driver.
//!
//! One invocation carries an optional list of explicit device addresses,
//! an optional probe request, and the actions to run: set brightness, set
//! color, set power, read status. Explicit addresses replace any persisted
//! fleet; at least one device and at least one action are required, else
//! the invocation fails with a descriptive error. Actions run in a fixed
//! order and the first failure aborts the rest. Argument parsing and the
//! UDP probe live outside the library: the probe's findings come in as a
//! plain list.

use vstd::prelude::*;

use crate::api::{
    any_selected, fleet_refreshed, fleet_updated, spec_message, toggle_op, ApiError, BulbView,
    Device, DeviceView, Devices, FleetOpSpec,
};
use crate::text::texts_view;

verus! {

/// The power action of one invocation.
#[derive(Clone, Copy, Debug, PartialEq, Eq, Structural)]
pub enum PowerState {
    On,
    Off,
    Toggle,
}

/// One non-interactive invocation: addresses and requested actions.
pub struct Cli {
    /// Explicit device addresses; when non-empty they replace the fleet.
    pub addrs: Vec<String>,
    /// Brightness to set, as decimal text.
    pub brightness: Option<String>,
    /// Color to set.
    pub color: Option<String>,
    /// Whether to probe the network for devices first.
    pub discover: bool,
    /// Whether to read and report status.
    pub status: bool,
    /// Power action to apply.
    pub power: Option<PowerState>,
}

/// Why a non-interactive invocation failed.
pub enum CliError {
    /// No device was given, persisted or discovered.
    NoDevices,
    /// No action was requested.
    NothingToDo,
    /// A device action failed.
    Api(ApiError),
}

/// The text shown for an invocation error.
pub open spec fn spec_cli_message(e: CliError) -> Seq<char> {
    match e {
        CliError::NoDevices => "no devices found, provide at least one device address"@,
        CliError::NothingToDo => "nothing to do, provide argument or option that does something"@,
        CliError::Api(a) => spec_message(a),
    }
}

impl CliError {
    /// Renders the error as one line of text.
    pub fn message(&self) -> (out: String)
        ensures
            out@ == spec_cli_message(*self),
    {
        match self {
            CliError::NoDevices => "no devices found, provide at least one device address"
                .to_owned(),
            CliError::NothingToDo =>
            "nothing to do, provide argument or option that does something".to_owned(),
            CliError::Api(a) => a.message(),
        }
    }
}

/// The model of a device just made from a bare address.
pub open spec fn spec_fresh_device(ip: Seq<char>) -> DeviceView {
    DeviceView {
        bulb: BulbView { brightness: "0"@, color: ""@, enabled: 0 },
        ip,
        name: Seq::<char>::empty(),
        selected: true,
    }
}

/// Fresh devices for a whole address list.
pub open spec fn fresh_fleet(ips: Seq<Seq<char>>) -> Seq<DeviceView> {
    ips.map_values(|ip: Seq<char>| spec_fresh_device(ip))
}

/// The fleet an invocation acts on: explicit addresses replace what was
/// passed in, and discovered addresses are appended.
pub open spec fn cli_seeded(
    c: Cli,
    pre: Seq<DeviceView>,
    discovered: Seq<Seq<char>>,
) -> Seq<DeviceView> {
    (if c.addrs@.len() > 0 {
        fresh_fleet(texts_view(c.addrs@))
    } else {
        pre
    }) + (if c.discover {
        fresh_fleet(discovered)
    } else {
        Seq::<DeviceView>::empty()
    })
}

/// The brightness action ran, if requested, over the whole fleet.
pub open spec fn brightness_done(c: Cli, pre: Seq<DeviceView>, post: Seq<DeviceView>) -> bool {
    match c.brightness {
        Some(b) => fleet_updated(pre, post, pre.len() as int, FleetOpSpec::Brightness(b@)),
        None => post == pre,
    }
}

/// The color action ran, if requested, over the whole fleet.
pub open spec fn color_done(c: Cli, pre: Seq<DeviceView>, post: Seq<DeviceView>) -> bool {
    match c.color {
        Some(col) => fleet_updated(pre, post, pre.len() as int, FleetOpSpec::Color(col@)),
        None => post == pre,
    }
}

/// The power action ran, if requested, over the whole fleet; a toggle
/// refreshes status first and then moves away from the freshly read
/// reference.
pub open spec fn power_done(c: Cli, pre: Seq<DeviceView>, post: Seq<DeviceView>) -> bool {
    match c.power {
        None => post == pre,
        Some(PowerState::On) => fleet_updated(pre, post, pre.len() as int, FleetOpSpec::On),
        Some(PowerState::Off) => fleet_updated(pre, post, pre.len() as int, FleetOpSpec::Off),
        Some(PowerState::Toggle) => exists|mid: Seq<DeviceView>|
            {
                &&& #[trigger] fleet_refreshed(pre, mid, pre.len() as int)
                &&& fleet_updated(mid, post, mid.len() as int, toggle_op(mid))
            },
    }
}

/// The status action ran, if requested: the fleet was refreshed and output
/// produced exactly when something was selected.
pub open spec fn status_done(
    c: Cli,
    pre: Seq<DeviceView>,
    post: Seq<DeviceView>,
    out: Option<String>,
) -> bool {
    if c.status {
        &&& fleet_refreshed(pre, post, pre.len() as int)
        &&& (out is Some <==> any_selected(pre))
    } else {
        &&& post == pre
        &&& out is None
    }
}

/// A batch action left an exact fail-fast prefix: some selected device
/// failed and everything at or after it is untouched.
pub open spec fn partial_update(
    pre: Seq<DeviceView>,
    post: Seq<DeviceView>,
    op: FleetOpSpec,
    e: ApiError,
) -> bool {
    &&& (e is Transport || e is Status)
    &&& exists|k: int|
        0 <= k < pre.len() && pre[k].selected && #[trigger] fleet_updated(pre, post, k, op)
}

/// A status refresh left an exact fail-fast prefix.
pub open spec fn partial_refresh(
    pre: Seq<DeviceView>,
    post: Seq<DeviceView>,
    e: ApiError,
) -> bool {
    &&& (e is Transport || e is Status || e is Decode)
    &&& exists|k: int|
        0 <= k < pre.len() && pre[k].selected && #[trigger] fleet_refreshed(pre, post, k)
}

/// The shapes a failing power action can leave: a plain on/off batch
/// stopped at a failing device; a toggle failed either in its fresh status
/// read or in the batch that follows it.
pub open spec fn power_failed(
    c: Cli,
    pre: Seq<DeviceView>,
    post: Seq<DeviceView>,
    e: ApiError,
) -> bool {
    match c.power {
        None => false,
        Some(PowerState::On) => partial_update(pre, post, FleetOpSpec::On, e),
        Some(PowerState::Off) => partial_update(pre, post, FleetOpSpec::Off, e),
        Some(PowerState::Toggle) => {
            ||| partial_refresh(pre, post, e)
            ||| exists|mid: Seq<DeviceView>|
                #[trigger] fleet_refreshed(pre, mid, pre.len() as int) && partial_update(
                    mid,
                    post,
                    toggle_op(mid),
                    e,
                )
        },
    }
}

/// Where a failing invocation stopped: the earlier actions of the fixed
/// order ran to completion over the seeded fleet, the failing action left
/// its fail-fast prefix, and nothing after it was attempted.
pub open spec fn cli_failed(
    c: Cli,
    seeded: Seq<DeviceView>,
    post: Seq<DeviceView>,
    e: ApiError,
) -> bool {
    ||| (c.brightness matches Some(b) && partial_update(
        seeded,
        post,
        FleetOpSpec::Brightness(b@),
        e,
    ))
    ||| (c.color matches Some(col) && exists|m1: Seq<DeviceView>|
        #[trigger] brightness_done(c, seeded, m1) && partial_update(
            m1,
            post,
            FleetOpSpec::Color(col@),
            e,
        ))
    ||| (c.power is Some && exists|m1: Seq<DeviceView>, m2: Seq<DeviceView>|
        #[trigger] brightness_done(c, seeded, m1) && #[trigger] color_done(c, m1, m2)
            && power_failed(c, m2, post, e))
    ||| (c.status && exists|m1: Seq<DeviceView>, m2: Seq<DeviceView>, m3: Seq<DeviceView>|
        #[trigger] brightness_done(c, seeded, m1) && #[trigger] color_done(c, m1, m2)
            && #[trigger] power_done(c, m2, m3) && partial_refresh(m3, post, e))
}

impl Cli {
    /// Runs one invocation over `devices`. `discovered` is what the UDP
    /// probe found when `discover` is set, and is ignored otherwise.
    /// Actions run in the order brightness, color, power, status; the first
    /// failing device action aborts the rest.
    pub fn run(&self, devices: &mut Devices, discovered: Vec<String>) -> (r: Result<
        Option<String>,
        CliError,
    >)
        ensures
            match r {
                Ok(out) => {
                    &&& cli_seeded(*self, old(devices)@, texts_view(discovered@)).len() > 0
                    &&& (self.brightness is Some || self.color is Some || self.power is Some
                        || self.status)
                    &&& exists|m1: Seq<DeviceView>, m2: Seq<DeviceView>, m3: Seq<DeviceView>|
                        {
                            &&& #[trigger] brightness_done(
                                *self,
                                cli_seeded(*self, old(devices)@, texts_view(discovered@)),
                                m1,
                            )
                            &&& #[trigger] color_done(*self, m1, m2)
                            &&& #[trigger] power_done(*self, m2, m3)
                            &&& status_done(*self, m3, final(devices)@, out)
                        }
                },
                Err(CliError::NoDevices) => {
                    &&& cli_seeded(*self, old(devices)@, texts_view(discovered@)).len() == 0
                    &&& final(devices)@ == cli_seeded(
                        *self,
                        old(devices)@,
                        texts_view(discovered@),
                    )
                },
                Err(CliError::NothingToDo) => {
                    &&& cli_seeded(*self, old(devices)@, texts_view(discovered@)).len() > 0
                    &&& final(devices)@ == cli_seeded(
                        *self,
                        old(devices)@,
                        texts_view(discovered@),
                    )
                    &&& self.brightness is None
                    &&& self.color is None
                    &&& self.power is None
                    &&& !self.status
                },
                Err(CliError::Api(e)) => {
                    &&& (e is Transport || e is Status || e is Decode)
                    &&& cli_seeded(*self, old(devices)@, texts_view(discovered@)).len() > 0
                    &&& (self.brightness is Some || self.color is Some || self.power is Some
                        || self.status)
                    &&& cli_failed(
                        *self,
                        cli_seeded(*self, old(devices)@, texts_view(discovered@)),
                        final(devices)@,
                        e,
                    )
                },
            },
    {
        let ghost pre_fleet = devices@;
        let ghost disc = texts_view(discovered@);
        if self.addrs.len() > 0 {
            *devices = Devices::new();
            let n = self.addrs.len();
            let mut i: usize = 0;
            while i < n
                invariant
                    i <= n,
                    n == self.addrs@.len(),
                    devices@.len() == i,
                    forall|j: int|
                        0 <= j < i ==> #[trigger] devices@[j] == spec_fresh_device(
                            self.addrs@[j]@,
                        ),
                decreases n - i,
            {
                let a = self.addrs[i].clone();
                devices.push_device(Device::new(a, String::new()));
                i += 1;
            }
            proof {
                assert(devices@ =~= fresh_fleet(texts_view(self.addrs@)));
            }
        }
        let ghost base = devices@;
        if self.discover {
            let n = discovered.len();
            let mut i: usize = 0;
            while i < n
                invariant
                    i <= n,
                    n == discovered@.len(),
                    devices@.len() == base.len() + i,
                    devices@.subrange(0, base.len() as int) == base,
                    forall|j: int|
                        base.len() <= j < devices@.len() ==> #[trigger] devices@[j]
                            == spec_fresh_device(discovered@[j - base.len()]@),
                decreases n - i,
            {
                let a = discovered[i].clone();
                devices.push_device(Device::new(a, String::new()));
                proof {
                    assert(devices@.subrange(0, base.len() as int) =~= base);
                }
                i += 1;
            }
        }
        proof {
            assert(devices@ =~= cli_seeded(*self, pre_fleet, disc));
        }
        let ghost seeded = devices@;

        if devices.len() == 0 {
            return Err(CliError::NoDevices);
        }

        let mut sth_was_done = false;
        let mut status: Option<String> = None;

        if let Some(b) = &self.brightness {
            sth_was_done = true;
            match devices.set_brightness(b.as_str()) {
                Ok(()) => {},
                Err(e) => {
                    proof {
                        assert(partial_update(
                            seeded,
                            devices@,
                            FleetOpSpec::Brightness(b@),
                            e,
                        ));
                        assert(cli_failed(*self, seeded, devices@, e));
                    }
                    return Err(CliError::Api(e));
                },
            }
        }
        let ghost m1 = devices@;
        if let Some(col) = &self.color {
            sth_was_done = true;
            match devices.set_color(col.as_str()) {
                Ok(()) => {},
                Err(e) => {
                    proof {
                        assert(brightness_done(*self, seeded, m1));
                        assert(partial_update(m1, devices@, FleetOpSpec::Color(col@), e));
                        assert(cli_failed(*self, seeded, devices@, e));
                    }
                    return Err(CliError::Api(e));
                },
            }
        }
        let ghost m2 = devices@;
        match &self.power {
            None => {},
            Some(PowerState::On) => {
                sth_was_done = true;
                match devices.on() {
                    Ok(()) => {},
                    Err(e) => {
                        proof {
                            assert(brightness_done(*self, seeded, m1));
                            assert(color_done(*self, m1, m2));
                            assert(power_failed(*self, m2, devices@, e));
                            assert(cli_failed(*self, seeded, devices@, e));
                        }
                        return Err(CliError::Api(e));
                    },
                }
            },
            Some(PowerState::Off) => {
                sth_was_done = true;
                match devices.off() {
                    Ok(()) => {},
                    Err(e) => {
                        proof {
                            assert(brightness_done(*self, seeded, m1));
                            assert(color_done(*self, m1, m2));
                            assert(power_failed(*self, m2, devices@, e));
                            assert(cli_failed(*self, seeded, devices@, e));
                        }
                        return Err(CliError::Api(e));
                    },
                }
            },
            Some(PowerState::Toggle) => {
                sth_was_done = true;
                match devices.get_status() {
                    Ok(_) => {},
                    Err(e) => {
                        proof {
                            assert(brightness_done(*self, seeded, m1));
                            assert(color_done(*self, m1, m2));
                            assert(partial_refresh(m2, devices@, e));
                            assert(power_failed(*self, m2, devices@, e));
                            assert(cli_failed(*self, seeded, devices@, e));
                        }
                        return Err(CliError::Api(e));
                    },
                }
                let ghost mid = devices@;
                match devices.toggle() {
                    Ok(()) => {},
                    Err(e) => {
                        proof {
                            assert(brightness_done(*self, seeded, m1));
                            assert(color_done(*self, m1, m2));
                            assert(fleet_refreshed(m2, mid, m2.len() as int));
                            assert(partial_update(mid, devices@, toggle_op(mid), e));
                            assert(power_failed(*self, m2, devices@, e));
                            assert(cli_failed(*self, seeded, devices@, e));
                        }
                        return Err(CliError::Api(e));
                    },
                }
            },
        }
        let ghost m3 = devices@;
        if self.status {
            sth_was_done = true;
            match devices.get_status() {
                Ok(out) => status = out,
                Err(e) => {
                    proof {
                        assert(brightness_done(*self, seeded, m1));
                        assert(color_done(*self, m1, m2));
                        assert(power_done(*self, m2, m3));
                        assert(partial_refresh(m3, devices@, e));
                        assert(cli_failed(*self, seeded, devices@, e));
                    }
                    return Err(CliError::Api(e));
                },
            }
        }

        if sth_was_done {
            proof {
                assert(brightness_done(*self, seeded, m1));
                assert(color_done(*self, m1, m2));
                assert(power_done(*self, m2, m3));
                assert(status_done(*self, m3, devices@, status));
            }
            Ok(status)
        } else {
            Err(CliError::NothingToDo)
        }
    }
}

} // verus!
