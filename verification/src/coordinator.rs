use vstd::prelude::*;

use crate::device::{spec_supports, check_capability, DeviceHandler, Operation};
use crate::error::{Error, ErrorKind, HandlerError, TapoErrorExt};
use crate::properties::{
    spec_absolute_out_of_range,
    spec_hue_saturation_invalid,
    spec_resolve_hue,
    spec_resolve_linear,
    resolve_brightness,
    resolve_hue,
    resolve_saturation,
    resolve_temperature,
    validate_brightness,
    validate_hue_saturation,
    validate_temperature,
};
use crate::rpc::{
    SetRequest,
    spec_or_zero_u32,
    ColorConfig,
    HueSaturation,
    InfoResponse,
    IntegerValueChange,
};
use crate::session::SessionCoordinator;

verus! {

/// Everything the set operation resolved from a request and the current
/// snapshot: the values to command the device with, and the optimistic
/// snapshot to cache once the device accepted them.
#[derive(Clone, Debug)]
pub struct ResolvedSet {
    pub power: Option<bool>,
    pub brightness: Option<u8>,
    pub temperature: Option<u16>,
    pub hue_saturation: Option<(u16, u8)>,
    pub info: InfoResponse,
}

/// Whether a set request carries an invalid value: an out-of-range absolute
/// brightness or temperature, or a malformed hue/saturation pairing.
pub open spec fn spec_set_request_invalid(
    brightness: Option<IntegerValueChange>,
    temperature: Option<IntegerValueChange>,
    hue_saturation: Option<HueSaturation>,
) -> bool {
    ||| (brightness is Some && spec_absolute_out_of_range(brightness->0, 1, 100))
    ||| (temperature is Some && spec_absolute_out_of_range(temperature->0, 2500, 6500))
    ||| (hue_saturation is Some && spec_hue_saturation_invalid(hue_saturation->0))
}

/// Reject a set request whose absolute values fall outside their domain
/// ranges or whose hue/saturation pairing is malformed. Relative changes pass
/// untouched: their legality depends on the current cached value.
pub fn validate_set_request(
    brightness: &Option<IntegerValueChange>,
    temperature: &Option<IntegerValueChange>,
    hue_saturation: &Option<HueSaturation>,
) -> (r: Result<(), Error>)
    ensures
        r is Err <==> spec_set_request_invalid(*brightness, *temperature, *hue_saturation),
        r is Err ==> r->Err_0.kind == ErrorKind::InvalidArgument,
{
    if let Some(change) = brightness {
        validate_brightness(change)?;
    }
    if let Some(change) = temperature {
        validate_temperature(change)?;
    }
    if let Some(hs) = hue_saturation {
        validate_hue_saturation(hs)?;
    }
    Ok(())
}

/// The temperature command before any color-preset override.
pub open spec fn spec_resolved_temperature(
    info: InfoResponse,
    temperature: Option<IntegerValueChange>,
) -> Option<u16> {
    match temperature {
        Some(c) => Some(
            spec_resolve_linear(spec_or_zero_u32(info.temperature) as int, c, 2500, 6500) as u16,
        ),
        None => None,
    }
}

/// The brightness command.
pub open spec fn spec_resolved_brightness(
    info: InfoResponse,
    brightness: Option<IntegerValueChange>,
) -> Option<u8> {
    match brightness {
        Some(c) => Some(spec_resolve_linear(spec_or_zero_u32(info.brightness) as int, c, 1, 100) as u8),
        None => None,
    }
}

/// The hue/saturation command before any color-preset override.
pub open spec fn spec_resolved_hue_saturation(
    info: InfoResponse,
    hue_saturation: Option<HueSaturation>,
) -> Option<(u16, u8)> {
    match hue_saturation {
        Some(hs) => if hs.hue is Some && hs.saturation is Some {
            Some(
                (
                    spec_resolve_hue(spec_or_zero_u32(info.hue) as int, hs.hue->0) as u16,
                    spec_resolve_linear(
                        spec_or_zero_u32(info.saturation) as int,
                        hs.saturation->0,
                        1,
                        100,
                    ) as u8,
                ),
            )
        } else {
            None
        },
        None => None,
    }
}

/// What the set operation resolves to. Requested changes are resolved against
/// the current snapshot; a supplied color preset then overrides any
/// hue/saturation and temperature changes, as a hue/saturation pair when the
/// preset carries a hue above zero and as a pure color temperature otherwise.
/// Any property command or an explicit power-on marks the device as on with
/// its on-time started; an explicit power-off alone marks it off.
pub open spec fn spec_resolve_set(
    info: InfoResponse,
    brightness: Option<IntegerValueChange>,
    temperature: Option<IntegerValueChange>,
    hue_saturation: Option<HueSaturation>,
    color: Option<ColorConfig>,
    power: Option<bool>,
) -> ResolvedSet {
    let temp0 = spec_resolved_temperature(info, temperature);
    let bright = spec_resolved_brightness(info, brightness);
    let hs0 = spec_resolved_hue_saturation(info, hue_saturation);
    let temp = match color {
        Some(c) => if c.hue > 0 {
            None
        } else {
            Some(c.temperature)
        },
        None => temp0,
    };
    let hs = match color {
        Some(c) => if c.hue > 0 {
            Some((c.hue, c.saturation))
        } else {
            None
        },
        None => hs0,
    };
    let info_temp = match temp {
        Some(t) => Some(t as u32),
        None => if color is Some || hs0 is Some {
            None
        } else {
            info.temperature
        },
    };
    let info_hue = match hs {
        Some(pair) => Some(pair.0 as u32),
        None => if color is Some {
            None
        } else {
            info.hue
        },
    };
    let info_sat = match hs {
        Some(pair) => Some(pair.1 as u32),
        None => if color is Some {
            None
        } else {
            info.saturation
        },
    };
    let info_bright = match bright {
        Some(b) => Some(b as u32),
        None => info.brightness,
    };
    let turning_on = color is Some || hs is Some || temp is Some || bright is Some || power
        == Some(true);
    let device_on = if turning_on {
        Some(true)
    } else if power == Some(false) {
        Some(false)
    } else {
        info.device_on
    };
    let on_time = if turning_on {
        if info.on_time is Some {
            info.on_time
        } else {
            Some(0u64)
        }
    } else if power == Some(false) {
        None
    } else {
        info.on_time
    };
    ResolvedSet {
        power,
        brightness: bright,
        temperature: temp,
        hue_saturation: hs,
        info: InfoResponse {
            device_on,
            on_time,
            brightness: info_bright,
            hue: info_hue,
            saturation: info_sat,
            temperature: info_temp,
            ..info
        },
    }
}

/// Resolve a validated set request against the current snapshot into the
/// device commands and the optimistic post-command snapshot.
///
/// The caller validates absolute values and the hue/saturation pairing first,
/// and looks a supplied color preset up so that `color` is present exactly
/// when the request named one.
pub fn resolve_set(
    info: &InfoResponse,
    brightness: &Option<IntegerValueChange>,
    temperature: &Option<IntegerValueChange>,
    hue_saturation: &Option<HueSaturation>,
    color: &Option<ColorConfig>,
    power: &Option<bool>,
) -> (r: ResolvedSet)
    requires
        !spec_set_request_invalid(*brightness, *temperature, *hue_saturation),
    ensures
        r == spec_resolve_set(
            *info,
            *brightness,
            *temperature,
            *hue_saturation,
            *color,
            *power,
        ),
{
    let temp0: Option<u16> = match temperature {
        Some(change) => Some(resolve_temperature(info.temperature_or_zero(), change) as u16),
        None => None,
    };
    let bright: Option<u8> = match brightness {
        Some(change) => Some(resolve_brightness(info.brightness_or_zero(), change) as u8),
        None => None,
    };
    let hs0: Option<(u16, u8)> = match hue_saturation {
        Some(hs) => match (&hs.hue, &hs.saturation) {
            (Some(hue_change), Some(sat_change)) => {
                let hue = resolve_hue(info.hue_or_zero(), hue_change);
                let sat = resolve_saturation(info.saturation_or_zero(), sat_change);
                Some(((hue as u16), (sat as u8)))
            },
            _ => None,
        },
        None => None,
    };
    let temp: Option<u16> = match color {
        Some(c) => if c.hue > 0 {
            None
        } else {
            Some(c.temperature)
        },
        None => temp0,
    };
    let hs: Option<(u16, u8)> = match color {
        Some(c) => if c.hue > 0 {
            Some((c.hue, c.saturation))
        } else {
            None
        },
        None => hs0,
    };
    let info_temp: Option<u32> = match temp {
        Some(t) => Some(t as u32),
        None => if color.is_some() || hs0.is_some() {
            None
        } else {
            info.temperature
        },
    };
    let info_hue: Option<u32> = match hs {
        Some(pair) => Some(pair.0 as u32),
        None => if color.is_some() {
            None
        } else {
            info.hue
        },
    };
    let info_sat: Option<u32> = match hs {
        Some(pair) => Some(pair.1 as u32),
        None => if color.is_some() {
            None
        } else {
            info.saturation
        },
    };
    let info_bright: Option<u32> = match bright {
        Some(b) => Some(b as u32),
        None => info.brightness,
    };
    let turning_on = color.is_some() || hs.is_some() || temp.is_some() || bright.is_some()
        || matches!(power, Some(true));
    let device_on: Option<bool> = if turning_on {
        Some(true)
    } else if matches!(power, Some(false)) {
        Some(false)
    } else {
        info.device_on
    };
    let on_time: Option<u64> = if turning_on {
        match info.on_time {
            Some(t) => Some(t),
            None => Some(0),
        }
    } else if matches!(power, Some(false)) {
        None
    } else {
        info.on_time
    };
    ResolvedSet {
        power: *power,
        brightness: bright,
        temperature: temp,
        hue_saturation: hs,
        info: InfoResponse {
            device_on,
            on_time,
            brightness: info_bright,
            hue: info_hue,
            saturation: info_sat,
            temperature: info_temp,
            ..info.duplicate()
        },
    }
}

/// Validate a set request and resolve it against the current snapshot. The
/// caller has already looked up the request's color preset, so `color`
/// carries its configuration exactly when the request named one.
pub fn prepare_set_request(
    info: &InfoResponse,
    request: &SetRequest,
    color: &Option<ColorConfig>,
) -> (r: Result<ResolvedSet, Error>)
    ensures
        r is Err <==> spec_set_request_invalid(
            request.brightness,
            request.temperature,
            request.hue_saturation,
        ),
        r is Err ==> r->Err_0.kind == ErrorKind::InvalidArgument,
        r is Ok ==> r->Ok_0 == spec_resolve_set(
            *info,
            request.brightness,
            request.temperature,
            request.hue_saturation,
            *color,
            request.power,
        ),
{
    validate_set_request(&request.brightness, &request.temperature, &request.hue_saturation)?;
    Ok(
        resolve_set(
            info,
            &request.brightness,
            &request.temperature,
            &request.hue_saturation,
            color,
            &request.power,
        ),
    )
}

/// The optimistic snapshot after a plain power command: the new power state
/// with the on-time counter restarted, everything else carried over.
pub fn apply_power(info: &InfoResponse, device_on: bool) -> (r: InfoResponse)
    ensures
        r == (InfoResponse { device_on: Some(device_on), on_time: Some(0u64), ..*info }),
{
    InfoResponse { device_on: Some(device_on), on_time: Some(0), ..info.duplicate() }
}

/// Admit a property operation only on a device whose handle is live: a device
/// whose handle was never acquired, and whose immediate re-acquisition just
/// failed, is reported `Unauthenticated` instead of being contacted.
pub fn authorize_operation(session: &SessionCoordinator) -> (r: Result<(), Error>)
    ensures
        r is Ok <==> session.handle_present,
        r is Err ==> r->Err_0.kind == ErrorKind::Unauthenticated,
{
    if session.handle_present {
        Ok(())
    } else {
        Err(Error::unauthenticated(String::from_str("The device is currently unauthenticated")))
    }
}

/// Gate one operation before the device is contacted: an operation the
/// device's class does not support fails `Unimplemented` outright, and a
/// property operation without a live handle fails `Unauthenticated`; only
/// then may the device be called.
pub fn begin_operation(
    class: DeviceHandler,
    op: Operation,
    session: &SessionCoordinator,
) -> (r: Result<(), Error>)
    ensures
        r is Ok <==> spec_supports(class, op) && session.handle_present,
        !spec_supports(class, op) ==> r is Err && r->Err_0.kind == ErrorKind::Unimplemented,
        spec_supports(class, op) && !session.handle_present ==> r is Err && r->Err_0.kind
            == ErrorKind::Unauthenticated,
{
    check_capability(class, op)?;
    authorize_operation(session)?;
    Ok(())
}

/// What the caller of a device operation does with its outcome: surface it,
/// or refresh the session and retry, which happens at most once and only for
/// the distinguished session-expiry failure.
#[derive(Clone, Copy, Debug, PartialEq, Eq, Structural)]
pub enum RetryDecision {
    /// Pass the outcome on, successful or not.
    Surface,
    /// Force a session refresh and repeat the operation once.
    RetryAfterRefresh,
}

/// Decide whether a device operation's outcome is retried: exactly the
/// session-expiry failure, and only on the first attempt; a second failure is
/// surfaced.
pub fn plan_after_device_call<T>(
    result: &Result<T, HandlerError>,
    already_retried: bool,
) -> (r: RetryDecision)
    ensures
        r is RetryAfterRefresh <==> result.spec_session_timeout() && !already_retried,
{
    if !already_retried && result.is_session_timeout() {
        RetryDecision::RetryAfterRefresh
    } else {
        RetryDecision::Surface
    }
}

/// A device whose handle was never acquired stays without one when another
/// acquisition attempt fails, whatever the clock reads: a property operation
/// that authorizes against such a session is refused as `Unauthenticated`
/// rather than silently ignored.
pub proof fn lemma_unauthenticated_before_first_success(s: SessionCoordinator, now: u64)
    requires
        !s.handle_present,
    ensures
        !s.spec_acquire_failure(now).handle_present,
        !s.spec_refresh_failure().handle_present,
{
}

} // verus!
