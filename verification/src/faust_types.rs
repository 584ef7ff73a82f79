use vstd::prelude::*;

verus! {

/// Index of one parameter in a generated DSP's flat parameter table.
#[derive(Clone, Copy, Debug, PartialEq, Eq, Structural)]
pub struct ParamIndex(pub i32);

/// Receiver of the metadata pairs a generated DSP declares.
pub trait Meta {
    fn declare(&mut self, key: &str, value: &str);
}

/// Receiver of the user-interface layout a generated DSP builds: nested
/// boxes and widgets, each active or passive widget bound to one parameter.
pub trait UI<T> {
    fn open_tab_box(&mut self, label: &str);

    fn open_horizontal_box(&mut self, label: &str);

    fn open_vertical_box(&mut self, label: &str);

    fn close_box(&mut self);

    fn add_button(&mut self, label: &str, param: ParamIndex);

    fn add_check_button(&mut self, label: &str, param: ParamIndex);

    fn add_vertical_slider(
        &mut self,
        label: &str,
        param: ParamIndex,
        init: T,
        low: T,
        high: T,
        step: T,
    );

    fn add_horizontal_slider(
        &mut self,
        label: &str,
        param: ParamIndex,
        init: T,
        low: T,
        high: T,
        step: T,
    );

    fn add_num_entry(&mut self, label: &str, param: ParamIndex, init: T, low: T, high: T, step: T);

    fn add_horizontal_bargraph(&mut self, label: &str, param: ParamIndex, low: T, high: T);

    fn add_vertical_bargraph(&mut self, label: &str, param: ParamIndex, low: T, high: T);

    fn declare(&mut self, param: Option<ParamIndex>, key: &str, value: &str);
}

/// Ties a generated DSP to the float width it computes with.
pub trait FaustFloatDsp {
    type F;
}

/// A DSP whose instance state can be initialised for a sample rate.
pub trait InitDsp {
    fn instance_init(&mut self, sample_rate: i32);
}

} // verus!
