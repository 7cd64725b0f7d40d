//! Command resolution: picks the binding matching an activation, performs
//! the optional linear value interpolation and placeholder substitution, and
//! hands back a fully resolved command. Launching the resolved process is
//! the caller's side of the boundary.

use vstd::prelude::*;
use crate::types::{
    Activation, ActivationKind, Command, CommandData, CommandDataModel, CommandModel, Control,
    ControlModel, Dispatch, DispatchError, DispatchModel, KeyEvent, resolution_model,
};
use crate::registry::{find_by_name, name_found, name_index};

verus! {

/// The decimal digit character for `d` (0 through 9).
pub open spec fn dec_digit(d: int) -> char {
    if d == 0 {
        '0'
    } else if d == 1 {
        '1'
    } else if d == 2 {
        '2'
    } else if d == 3 {
        '3'
    } else if d == 4 {
        '4'
    } else if d == 5 {
        '5'
    } else if d == 6 {
        '6'
    } else if d == 7 {
        '7'
    } else if d == 8 {
        '8'
    } else {
        '9'
    }
}

/// The decimal digit string of a natural number, most significant first.
pub open spec fn dec_rep(n: nat) -> Seq<char>
    decreases n,
{
    if n < 10 {
        seq![dec_digit(n as int)]
    } else {
        dec_rep(n / 10).push(dec_digit((n % 10) as int))
    }
}

/// The decimal representation of an integer, with a leading minus sign when
/// negative.
pub open spec fn decimal_of(v: int) -> Seq<char> {
    if v < 0 {
        seq!['-'] + dec_rep((-v) as nat)
    } else {
        dec_rep(v as nat)
    }
}

/// What `str::replace` returns: the string with every occurrence of the
/// pattern replaced. A function of the three strings alone.
pub uninterp spec fn replaced(s: Seq<char>, pat: Seq<char>, sub: Seq<char>) -> Seq<char>;

/// Relies on `i64::to_string` (through `ToString`): the decimal
/// representation of the value.
#[verifier::external_body]
fn i64_to_decimal(v: i64) -> (r: String)
    ensures
        r@ == decimal_of(v as int),
{
    v.to_string()
}

/// Relies on `str::replace`: replaces every match of the pattern with the
/// substitute; the result depends on the three strings alone.
#[verifier::external_body]
fn replace_all(s: &str, pat: &str, sub: &str) -> (r: String)
    ensures
        r@ == replaced(s@, pat@, sub@),
{
    s.replace(pat, sub)
}

/// Exact linear interpolation of a 7-bit-domain sample into the closed
/// integer interval between `min` and `max` (descending when `max < min`),
/// before clamping.
pub open spec fn interp_exact(min: int, max: int, v: int) -> int {
    if max >= min {
        min + ((max - min) * v) / 127
    } else {
        min - (((min - max) * v) / 127)
    }
}

/// Saturation of an integer to the `i64` range.
pub open spec fn clamp_to_i64(x: int) -> int {
    if x > i64::MAX {
        i64::MAX as int
    } else if x < i64::MIN {
        i64::MIN as int
    } else {
        x
    }
}

/// The substituted value for a raw sample: linear interpolation into the
/// configured interval, saturated to the `i64` range. Samples above 127 can
/// only arrive from switch polarity markers and extrapolate past `max`.
pub open spec fn interp_value(min: i64, max: i64, v: u8) -> int {
    clamp_to_i64(interp_exact(min as int, max as int, v as int))
}

/// Linearly interpolates a raw sample from its 7-bit domain into
/// `[map_min, map_max]`, with integer result, saturated to the `i64` range.
pub fn interpolate(map_min: i64, map_max: i64, value: u8) -> (r: i64)
    ensures
        r as int == interp_value(map_min, map_max, value),
        map_min <= map_max && value <= 127 ==> map_min <= r <= map_max,
{
    let v = value as u128;
    if map_max >= map_min {
        let delta = (map_max as i128 - map_min as i128) as u128;
        proof {
            assert(delta <= u64::MAX as u128);
            assert(delta * v <= delta * 255) by (nonlinear_arith)
                requires
                    v <= 255,
                    delta >= 0,
            ;
        }
        let q = (delta * v) / 127;
        proof {
            assert(q <= delta * 255 / 127);
            assert(delta * 255 / 127 <= delta * 3) by (nonlinear_arith)
                requires
                    delta >= 0,
            ;
        }
        let base = map_min as i128 + q as i128;
        let r = if base > i64::MAX as i128 {
            i64::MAX
        } else if base < i64::MIN as i128 {
            i64::MIN
        } else {
            base as i64
        };
        proof {
            if value <= 127 {
                assert(delta * v <= delta * 127) by (nonlinear_arith)
                    requires
                        v <= 127,
                        delta >= 0,
                ;
                assert(delta * 127 / 127 == delta) by (nonlinear_arith);
                assert(q <= delta);
            }
        }
        r
    } else {
        let delta = (map_min as i128 - map_max as i128) as u128;
        proof {
            assert(delta <= u64::MAX as u128);
            assert(delta * v <= delta * 255) by (nonlinear_arith)
                requires
                    v <= 255,
                    delta >= 0,
            ;
        }
        let q = (delta * v) / 127;
        proof {
            assert(q <= delta * 255 / 127);
            assert(delta * 255 / 127 <= delta * 3) by (nonlinear_arith)
                requires
                    delta >= 0,
            ;
        }
        let base = map_min as i128 - q as i128;
        if base > i64::MAX as i128 {
            i64::MAX
        } else if base < i64::MIN as i128 {
            i64::MIN
        } else {
            base as i64
        }
    }
}

/// The binding an activation selects from a command: defined exactly when
/// the activation payload and the command agree on kind; a switch picks the
/// `on` or `off` binding by the activation's polarity.
pub open spec fn selected_command(c: CommandModel, a: ActivationKind) -> Option<CommandDataModel> {
    match (c, a) {
        (CommandModel::Encoder { execute }, ActivationKind::Encoder { .. }) => Some(execute),
        (CommandModel::Switch { on, off, .. }, ActivationKind::Switch { on: is_on }) => Some(
            if is_on {
                on
            } else {
                off
            },
        ),
        (CommandModel::Trigger { execute }, ActivationKind::Trigger) => Some(execute),
        _ => None,
    }
}

/// A string after placeholder substitution with the interpolated value.
pub open spec fn substituted(s: Seq<char>, tok: Seq<char>, v: int) -> Seq<char> {
    replaced(s, tok, decimal_of(v))
}

/// Clones an argument list.
fn clone_args(args: &Vec<String>) -> (r: Vec<String>)
    ensures
        r.deep_view() == args.deep_view(),
{
    let mut out: Vec<String> = Vec::new();
    let mut i: usize = 0;
    while i < args.len()
        invariant
            i <= args.len(),
            out.len() == i,
            forall|j: int| 0 <= j < i ==> out.deep_view()[j] == args.deep_view()[j],
        decreases args.len() - i,
    {
        out.push(args[i].clone());
        i += 1;
    }
    proof {
        assert(out.deep_view() =~= args.deep_view());
    }
    out
}

/// What a correct resolution returns, given the registry, the control name,
/// the detections of the post-debounce state, and the activation payload.
/// This pins each error to exactly the inputs that produce it, and the
/// resolved command to the selected binding after substitution.
pub open spec fn resolution_ok(
    cs: Seq<ControlModel>,
    name: Seq<char>,
    detections: Seq<u8>,
    akind: Option<ActivationKind>,
    r: Result<DispatchModel, DispatchError>,
) -> bool {
    match r {
        Err(DispatchError::ConfigMismatch) => !name_found(cs, name) || akind is None,
        Err(DispatchError::KindMismatch) => {
            &&& name_found(cs, name)
            &&& akind is Some
            &&& selected_command(cs[name_index(cs, name)].command, akind->0) is None
        },
        Err(DispatchError::MissingMapping) => {
            &&& name_found(cs, name)
            &&& akind is Some
            &&& selected_command(cs[name_index(cs, name)].command, akind->0) matches Some(data)
                && data.replace is Some && (data.map_min is None || data.map_max is None)
            &&& detections.len() > 0
        },
        Ok(DispatchModel::NoValue) => {
            &&& name_found(cs, name)
            &&& akind is Some
            &&& selected_command(cs[name_index(cs, name)].command, akind->0) matches Some(data)
                && data.replace is Some
            &&& detections.len() == 0
        },
        Ok(DispatchModel::Run { cmd, args }) => {
            &&& name_found(cs, name)
            &&& akind is Some
            &&& selected_command(cs[name_index(cs, name)].command, akind->0) matches Some(data)
                && match data.replace {
                None => cmd == data.cmd && args == data.args,
                Some(tok) => {
                    &&& detections.len() > 0
                    &&& data.map_min matches Some(lo) && data.map_max matches Some(hi) && {
                        let v = interp_value(lo, hi, detections.last());
                        &&& cmd == substituted(data.cmd, tok, v)
                        &&& args.len() == data.args.len()
                        &&& forall|j: int|
                            0 <= j < data.args.len() ==> args[j] == substituted(
                                #[trigger] data.args[j],
                                tok,
                                v,
                            )
                    }
                },
            }
        },
    }
}

/// Resolves the command a valid activation should launch. Looks the control
/// up by name, requires the activation payload to match the command's shape,
/// picks the binding, and performs placeholder substitution when configured:
/// the most recent raw sample is interpolated into the configured interval
/// and replaces the token in the program name and in every argument. With
/// substitution configured but no sample recorded, resolution is an
/// informational no-op rather than an error.
pub fn call_command(event: &KeyEvent, activation: &Activation, controls: &Vec<Control>) -> (r:
    Result<Dispatch, DispatchError>)
    ensures
        resolution_ok(
            controls.deep_view(),
            event.state.control@,
            event.state.detections@,
            activation.kind,
            resolution_model(r),
        ),
{
    let idx = match find_by_name(controls, &event.state.control) {
        Some(i) => i,
        None => {
            return Err(DispatchError::ConfigMismatch);
        },
    };
    let command: &Command = &controls[idx].command;
    let akind: &ActivationKind = match &activation.kind {
        Some(k) => k,
        None => {
            return Err(DispatchError::ConfigMismatch);
        },
    };
    let data: &CommandData = match (command, akind) {
        (Command::Encoder { execute }, ActivationKind::Encoder { .. }) => execute,
        (Command::Switch { on, off, .. }, ActivationKind::Switch { on: is_on }) => if *is_on {
            on
        } else {
            off
        },
        (Command::Trigger { execute }, ActivationKind::Trigger) => execute,
        _ => {
            return Err(DispatchError::KindMismatch);
        },
    };
    match &data.replace {
        None => Ok(Dispatch::Run { cmd: data.cmd.clone(), args: clone_args(&data.args) }),
        Some(tok) => {
            if event.state.detections.len() == 0 {
                return Ok(Dispatch::NoValue);
            }
            let value = event.state.detections[event.state.detections.len() - 1];
            let hi = match data.map_max {
                Some(v) => v,
                None => {
                    return Err(DispatchError::MissingMapping);
                },
            };
            let lo = match data.map_min {
                Some(v) => v,
                None => {
                    return Err(DispatchError::MissingMapping);
                },
            };
            let val = interpolate(lo, hi, value);
            let val_str = i64_to_decimal(val);
            let cmd = replace_all(data.cmd.as_str(), tok.as_str(), val_str.as_str());
            let mut args: Vec<String> = Vec::new();
            let mut i: usize = 0;
            let ghost dm: CommandDataModel = data@;
            let ghost v = interp_value(lo, hi, event.state.detections@.last());
            while i < data.args.len()
                invariant
                    i <= data.args.len(),
                    dm == data@,
                    args.len() == i,
                    val_str@ == decimal_of(v),
                    tok@ == dm.replace->0,
                    forall|j: int|
                        0 <= j < i ==> args.deep_view()[j] == substituted(
                            #[trigger] dm.args[j],
                            tok@,
                            v,
                        ),
                decreases data.args.len() - i,
            {
                args.push(replace_all(data.args[i].as_str(), tok.as_str(), val_str.as_str()));
                i += 1;
            }
            Ok(Dispatch::Run { cmd, args })
        },
    }
}

} // verus!
