//! The models, and how a device is told to be one of them.

use vstd::prelude::*;

verus! {

/// The keyboards this library can speak to; `Unknown` stands for every other
/// device.
#[derive(Clone, Copy, Debug, PartialEq, Eq, Structural)]
pub enum KeyboardModel {
    Unknown,
    G213,
    G410,
    G413,
    G512,
    G513,
    G610,
    G810,
    G815,
    G910,
    GPro,
}

/// The USB vendor id shared by every supported keyboard.
pub const LOGITECH_VENDOR_ID: u16 = 0x046d;

/// One line of a support list: vendor id, product id, model.
pub type SupportedEntry = (u16, u16, KeyboardModel);

/// The built-in support list. Some models ship under more than one product id.
pub open spec fn spec_supported_keyboards() -> Seq<SupportedEntry> {
    seq![
        (LOGITECH_VENDOR_ID, 0xc336u16, KeyboardModel::G213),
        (LOGITECH_VENDOR_ID, 0xc330u16, KeyboardModel::G410),
        (LOGITECH_VENDOR_ID, 0xc33au16, KeyboardModel::G413),
        (LOGITECH_VENDOR_ID, 0xc342u16, KeyboardModel::G512),
        (LOGITECH_VENDOR_ID, 0xc33cu16, KeyboardModel::G513),
        (LOGITECH_VENDOR_ID, 0xc333u16, KeyboardModel::G610),
        (LOGITECH_VENDOR_ID, 0xc338u16, KeyboardModel::G610),
        (LOGITECH_VENDOR_ID, 0xc331u16, KeyboardModel::G810),
        (LOGITECH_VENDOR_ID, 0xc337u16, KeyboardModel::G810),
        (LOGITECH_VENDOR_ID, 0xc33fu16, KeyboardModel::G815),
        (LOGITECH_VENDOR_ID, 0xc32bu16, KeyboardModel::G910),
        (LOGITECH_VENDOR_ID, 0xc335u16, KeyboardModel::G910),
        (LOGITECH_VENDOR_ID, 0xc339u16, KeyboardModel::GPro),
    ]
}

/// The built-in support list.
pub fn supported_keyboards() -> (list: Vec<SupportedEntry>)
    ensures
        list@ == spec_supported_keyboards(),
{
    vec![
        (LOGITECH_VENDOR_ID, 0xc336u16, KeyboardModel::G213),
        (LOGITECH_VENDOR_ID, 0xc330u16, KeyboardModel::G410),
        (LOGITECH_VENDOR_ID, 0xc33au16, KeyboardModel::G413),
        (LOGITECH_VENDOR_ID, 0xc342u16, KeyboardModel::G512),
        (LOGITECH_VENDOR_ID, 0xc33cu16, KeyboardModel::G513),
        (LOGITECH_VENDOR_ID, 0xc333u16, KeyboardModel::G610),
        (LOGITECH_VENDOR_ID, 0xc338u16, KeyboardModel::G610),
        (LOGITECH_VENDOR_ID, 0xc331u16, KeyboardModel::G810),
        (LOGITECH_VENDOR_ID, 0xc337u16, KeyboardModel::G810),
        (LOGITECH_VENDOR_ID, 0xc33fu16, KeyboardModel::G815),
        (LOGITECH_VENDOR_ID, 0xc32bu16, KeyboardModel::G910),
        (LOGITECH_VENDOR_ID, 0xc335u16, KeyboardModel::G910),
        (LOGITECH_VENDOR_ID, 0xc339u16, KeyboardModel::GPro),
    ]
}

/// The model of the first line of `list` that carries both ids; `Unknown`
/// where no line does.
pub open spec fn spec_find_model(list: Seq<SupportedEntry>, vid: u16, pid: u16) -> KeyboardModel
    decreases list.len(),
{
    if list.len() == 0 {
        KeyboardModel::Unknown
    } else if list[0].0 == vid && list[0].1 == pid {
        list[0].2
    } else {
        spec_find_model(list.drop_first(), vid, pid)
    }
}

/// A support list that stands in for the built-in one while it is set, so
/// that a device with other ids can be driven as a known model.
pub struct SupportedOverride {
    pub list: Option<Vec<SupportedEntry>>,
}

impl SupportedOverride {
    /// The list that identification goes by.
    pub open spec fn effective(&self) -> Seq<SupportedEntry> {
        match self.list {
            Some(list) => list@,
            None => spec_supported_keyboards(),
        }
    }

    /// No override: identification goes by the built-in list.
    pub fn new() -> (state: SupportedOverride)
        ensures
            state.list is None,
    {
        SupportedOverride { list: None }
    }
}

/// Replace the support list used to identify devices.
pub fn set_supported_override(state: &mut SupportedOverride, list: Vec<SupportedEntry>)
    ensures
        final(state).list == Some(list),
{
    state.list = Some(list);
}

/// Go back to the built-in support list.
pub fn clear_supported_override(state: &mut SupportedOverride)
    ensures
        final(state).list is None,
{
    state.list = None;
}

fn find_model(list: &Vec<SupportedEntry>, vid: u16, pid: u16) -> (model: KeyboardModel)
    ensures
        model == spec_find_model(list@, vid, pid),
{
    let mut i: usize = 0;
    proof {
        assert(list@.skip(0) == list@);
    }
    while i < list.len()
        invariant
            i <= list.len(),
            spec_find_model(list@, vid, pid) == spec_find_model(list@.skip(i as int), vid, pid),
        decreases list.len() - i,
    {
        let entry = list[i];
        proof {
            assert(list@.skip(i as int)[0] == entry);
            assert(list@.skip(i as int).drop_first() == list@.skip(i + 1));
        }
        if entry.0 == vid && entry.1 == pid {
            return entry.2;
        }
        i += 1;
    }
    KeyboardModel::Unknown
}

/// Identify a device by its USB ids.
pub fn lookup_model(state: &SupportedOverride, vid: u16, pid: u16) -> (model: KeyboardModel)
    ensures
        model == spec_find_model(state.effective(), vid, pid),
{
    match &state.list {
        Some(list) => find_model(list, vid, pid),
        None => {
            let list = supported_keyboards();
            find_model(&list, vid, pid)
        },
    }
}

/// The model that a numbered trial protocol drives a foreign device as.
pub open spec fn spec_protocol_model(protocol: u8) -> Option<KeyboardModel> {
    if protocol == 1 {
        Some(KeyboardModel::G810)
    } else if protocol == 2 {
        Some(KeyboardModel::G910)
    } else if protocol == 3 {
        Some(KeyboardModel::G213)
    } else if protocol == 4 {
        Some(KeyboardModel::G815)
    } else {
        None
    }
}

/// The model that stands behind a numbered trial protocol, 1 to 4.
pub fn protocol_model(protocol: u8) -> (model: Option<KeyboardModel>)
    ensures
        model == spec_protocol_model(protocol),
{
    match protocol {
        1 => Some(KeyboardModel::G810),
        2 => Some(KeyboardModel::G910),
        3 => Some(KeyboardModel::G213),
        4 => Some(KeyboardModel::G815),
        _ => None,
    }
}

} // verus!
