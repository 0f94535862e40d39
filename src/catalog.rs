//! Wave-type names understood by the primary oscillator.
use vstd::prelude::*;

verus! {

/// A built-in periodic shape of an oscillator.
#[derive(Clone, Copy, Debug, PartialEq, Eq, Structural)]
pub enum WaveType {
    Sine,
    Triangle,
    Square,
    Sawtooth,
}

/// A wave-type name that names no shape; the caller keeps its current shape.
#[derive(Clone, Copy, Debug, PartialEq, Eq, Structural)]
pub struct UnknownWaveType;

/// The shape that `name` stands for: "sin", "tri", "sqr" or "saw".
pub open spec fn wave_type_named(name: Seq<char>) -> Option<WaveType> {
    if name == "sin"@ {
        Some(WaveType::Sine)
    } else if name == "tri"@ {
        Some(WaveType::Triangle)
    } else if name == "sqr"@ {
        Some(WaveType::Square)
    } else if name == "saw"@ {
        Some(WaveType::Sawtooth)
    } else {
        None
    }
}

/// Looks up the shape that a wave-type name stands for.
pub fn resolve_wave_type(name: &str) -> (r: Result<WaveType, UnknownWaveType>)
    ensures
        match wave_type_named(name@) {
            Some(w) => r == Ok::<WaveType, UnknownWaveType>(w),
            None => r == Err::<WaveType, UnknownWaveType>(UnknownWaveType),
        },
{
    let given = name.to_owned();
    if given == "sin".to_owned() {
        Ok(WaveType::Sine)
    } else if given == "tri".to_owned() {
        Ok(WaveType::Triangle)
    } else if given == "sqr".to_owned() {
        Ok(WaveType::Square)
    } else if given == "saw".to_owned() {
        Ok(WaveType::Sawtooth)
    } else {
        Err(UnknownWaveType)
    }
}

} // verus!
