//! The protocol parameters of the models.

use crate::model::KeyboardModel;
use vstd::prelude::*;

verus! {

/// The protocol parameters of one model. A header that is absent means that
/// the model has no such operation.
#[derive(Clone, Copy)]
pub struct ModelSpec {
    pub commit: Option<&'static [u8]>,
    pub group_addresses: &'static [(u8, &'static [u8])],
    pub effect_params: Option<(u8, u8)>,
    pub mr_header: Option<&'static [u8]>,
    pub mn_header: Option<&'static [u8]>,
    pub mn_map: Option<&'static [(u8, u8)]>,
    pub gkeys_header: Option<&'static [u8]>,
    pub startup_header: Option<&'static [u8]>,
    pub onboard_header: Option<&'static [u8]>,
    pub keys_header: Option<&'static [u8]>,
    pub region_header: Option<&'static [u8]>,
}

/// A `ModelSpec` as mathematical values.
pub struct ModelSpecView {
    pub commit: Option<Seq<u8>>,
    pub group_addresses: Seq<(u8, Seq<u8>)>,
    pub effect_params: Option<(u8, u8)>,
    pub mr_header: Option<Seq<u8>>,
    pub mn_header: Option<Seq<u8>>,
    pub mn_map: Option<Seq<(u8, u8)>>,
    pub gkeys_header: Option<Seq<u8>>,
    pub startup_header: Option<Seq<u8>>,
    pub onboard_header: Option<Seq<u8>>,
    pub keys_header: Option<Seq<u8>>,
    pub region_header: Option<Seq<u8>>,
}

/// The contents of a header that may be absent.
pub open spec fn header_view(header: Option<&'static [u8]>) -> Option<Seq<u8>> {
    match header {
        Some(bytes) => Some(bytes@),
        None => None,
    }
}

/// The contents of a table of key report headers.
pub open spec fn addresses_view(table: &'static [(u8, &'static [u8])]) -> Seq<(u8, Seq<u8>)> {
    table@.map_values(|entry: (u8, &'static [u8])| (entry.0, entry.1@))
}

impl View for ModelSpec {
    type V = ModelSpecView;

    open spec fn view(&self) -> ModelSpecView {
        ModelSpecView {
            commit: header_view(self.commit),
            group_addresses: addresses_view(self.group_addresses),
            effect_params: self.effect_params,
            mr_header: header_view(self.mr_header),
            mn_header: header_view(self.mn_header),
            mn_map: match self.mn_map {
                Some(map) => Some(map@),
                None => None,
            },
            gkeys_header: header_view(self.gkeys_header),
            startup_header: header_view(self.startup_header),
            onboard_header: header_view(self.onboard_header),
            keys_header: header_view(self.keys_header),
            region_header: header_view(self.region_header),
        }
    }
}

impl ModelSpecView {
    /// The description of a device that supports nothing.
    pub open spec fn empty() -> ModelSpecView {
        ModelSpecView {
            commit: None,
            group_addresses: Seq::empty(),
            effect_params: None,
            mr_header: None,
            mn_header: None,
            mn_map: None,
            gkeys_header: None,
            startup_header: None,
            onboard_header: None,
            keys_header: None,
            region_header: None,
        }
    }

    /// The effect registers and the start-up header that most models share.
    pub open spec fn with_gx_defaults(self, bank: u8) -> ModelSpecView {
        ModelSpecView {
            effect_params: Some((bank, 0x3cu8)),
            startup_header: Some(seq![0x11u8, 0xff, 0x0d, 0x5a, 0x00, 0x01]),
            ..self
        }
    }
}

impl ModelSpec {
    fn empty() -> (spec: ModelSpec)
        ensures
            spec@ == ModelSpecView::empty(),
    {
        let spec = ModelSpec {
            commit: None,
            group_addresses: &[],
            effect_params: None,
            mr_header: None,
            mn_header: None,
            mn_map: None,
            gkeys_header: None,
            startup_header: None,
            onboard_header: None,
            keys_header: None,
            region_header: None,
        };
        assert(spec@.group_addresses =~= Seq::empty());
        spec
    }

    /// Start of a description: nothing supported yet.
    pub fn builder() -> (spec: ModelSpec)
        ensures
            spec@ == ModelSpecView::empty(),
    {
        ModelSpec::empty()
    }

    /// Sets the commit header.
    #[must_use]
    pub fn commit(self, commit_bytes: &'static [u8]) -> (spec: ModelSpec)
        ensures
            spec@ == (ModelSpecView { commit: Some(commit_bytes@), ..self@ }),
    {
        ModelSpec { commit: Some(commit_bytes), ..self }
    }

    /// Sets the table of key report headers, one line for each address group.
    #[must_use]
    pub fn group_addresses(self, group_addr_tuples: &'static [(u8, &'static [u8])]) -> (spec:
        ModelSpec)
        ensures
            spec@ == (ModelSpecView {
                group_addresses: addresses_view(group_addr_tuples),
                ..self@
            }),
    {
        ModelSpec { group_addresses: group_addr_tuples, ..self }
    }

    /// Sets the effect registers: bank and parameter address.
    #[must_use]
    pub fn effect_params(self, bank_number: u8, param_address: u8) -> (spec: ModelSpec)
        ensures
            spec@ == (ModelSpecView { effect_params: Some((bank_number, param_address)), ..self@ }),
    {
        ModelSpec { effect_params: Some((bank_number, param_address)), ..self }
    }

    /// Sets the header of the MR key report.
    #[must_use]
    pub fn mr_header(self, mr_header_bytes: &'static [u8]) -> (spec: ModelSpec)
        ensures
            spec@ == (ModelSpecView { mr_header: Some(mr_header_bytes@), ..self@ }),
    {
        ModelSpec { mr_header: Some(mr_header_bytes), ..self }
    }

    /// Sets the header of the M-keys report.
    #[must_use]
    pub fn mn_header(self, mn_header_bytes: &'static [u8]) -> (spec: ModelSpec)
        ensures
            spec@ == (ModelSpecView { mn_header: Some(mn_header_bytes@), ..self@ }),
    {
        ModelSpec { mn_header: Some(mn_header_bytes), ..self }
    }

    /// Sets the map from M-key to the byte that selects its light.
    #[must_use]
    pub fn mn_map(self, map_entries: &'static [(u8, u8)]) -> (spec: ModelSpec)
        ensures
            spec@ == (ModelSpecView { mn_map: Some(map_entries@), ..self@ }),
    {
        ModelSpec { mn_map: Some(map_entries), ..self }
    }

    /// Sets the header of the G-keys mode report.
    #[must_use]
    pub fn gkeys_header(self, gkeys_header_bytes: &'static [u8]) -> (spec: ModelSpec)
        ensures
            spec@ == (ModelSpecView { gkeys_header: Some(gkeys_header_bytes@), ..self@ }),
    {
        ModelSpec { gkeys_header: Some(gkeys_header_bytes), ..self }
    }

    /// Sets the header of the start-up mode report.
    #[must_use]
    pub fn startup_header(self, startup_header_bytes: &'static [u8]) -> (spec: ModelSpec)
        ensures
            spec@ == (ModelSpecView { startup_header: Some(startup_header_bytes@), ..self@ }),
    {
        ModelSpec { startup_header: Some(startup_header_bytes), ..self }
    }

    /// Sets the header of the on-board mode report.
    #[must_use]
    pub fn onboard_header(self, onboard_header_bytes: &'static [u8]) -> (spec: ModelSpec)
        ensures
            spec@ == (ModelSpecView { onboard_header: Some(onboard_header_bytes@), ..self@ }),
    {
        ModelSpec { onboard_header: Some(onboard_header_bytes), ..self }
    }

    /// Sets the header of the single-colour key report.
    #[must_use]
    pub fn keys_header(self, keys_header_bytes: &'static [u8]) -> (spec: ModelSpec)
        ensures
            spec@ == (ModelSpecView { keys_header: Some(keys_header_bytes@), ..self@ }),
    {
        ModelSpec { keys_header: Some(keys_header_bytes), ..self }
    }

    /// Sets the header of the region report.
    #[must_use]
    pub fn region_header(self, region_header_bytes: &'static [u8]) -> (spec: ModelSpec)
        ensures
            spec@ == (ModelSpecView { region_header: Some(region_header_bytes@), ..self@ }),
    {
        ModelSpec { region_header: Some(region_header_bytes), ..self }
    }

    /// Sets the effect registers `(bank, 0x3c)` and the start-up header that
    /// most models share.
    pub fn with_gx_defaults(self, bank: u8) -> (spec: ModelSpec)
        ensures
            spec@ == self@.with_gx_defaults(bank),
    {
        let header: &'static [u8] = &[0x11, 0xff, 0x0d, 0x5a, 0x00, 0x01];
        ModelSpec { effect_params: Some((bank, 0x3c)), startup_header: Some(header), ..self }
    }
}

/// Key-report headers of the models without multimedia lights.
pub open spec fn spec_addr_gx() -> Seq<(u8, Seq<u8>)> {
    seq![
        (0u8, seq![0x11u8, 0xff, 0x0c, 0x3a, 0x00, 0x10, 0x00, 0x01]),
        (1u8, seq![0x12u8, 0xff, 0x0c, 0x3a, 0x00, 0x40, 0x00, 0x05]),
        (4u8, seq![0x12u8, 0xff, 0x0f, 0x3d, 0x00, 0x01, 0x00, 0x0e]),
    ]
}

/// Key-report headers of the G610 and the G810.
pub open spec fn spec_addr_g610_g810() -> Seq<(u8, Seq<u8>)> {
    seq![
        (0u8, seq![0x11u8, 0xff, 0x0c, 0x3a, 0x00, 0x10, 0x00, 0x01]),
        (1u8, seq![0x12u8, 0xff, 0x0c, 0x3a, 0x00, 0x40, 0x00, 0x05]),
        (4u8, seq![0x12u8, 0xff, 0x0f, 0x3d, 0x00, 0x01, 0x00, 0x0e]),
        (2u8, seq![0x12u8, 0xff, 0x0c, 0x3a, 0x00, 0x02, 0x00, 0x05]),
    ]
}

/// Key-report header of the G815.
pub open spec fn spec_addr_g815() -> Seq<(u8, Seq<u8>)> {
    seq![(0u8, seq![0x11u8, 0xff, 0x10, 0x1c])]
}

/// Key-report headers of the G910.
pub open spec fn spec_addr_g910() -> Seq<(u8, Seq<u8>)> {
    seq![
        (0u8, seq![0x11u8, 0xff, 0x0f, 0x3a, 0x00, 0x10, 0x00, 0x02]),
        (1u8, seq![0x12u8, 0xff, 0x0c, 0x3a, 0x00, 0x40, 0x00, 0x05]),
        (3u8, seq![0x12u8, 0xff, 0x0f, 0x3e, 0x00, 0x04, 0x00, 0x09]),
        (4u8, seq![0x12u8, 0xff, 0x0f, 0x3d, 0x00, 0x01, 0x00, 0x0e]),
    ]
}

/// The commit header of most models.
pub open spec fn spec_commit_gx() -> Seq<u8> {
    seq![0x11u8, 0xff, 0x0c, 0x5a]
}

/// The registry: the protocol parameters of each model.
pub open spec fn spec_model_spec(model: KeyboardModel) -> ModelSpecView {
    match model {
        KeyboardModel::Unknown => ModelSpecView::empty(),
        KeyboardModel::G213 => ModelSpecView {
            group_addresses: spec_addr_gx(),
            region_header: Some(seq![0x11u8, 0xff, 0x0c, 0x3a]),
            ..ModelSpecView::empty().with_gx_defaults(0x0c)
        },
        KeyboardModel::G413 => ModelSpecView {
            group_addresses: spec_addr_gx(),
            ..ModelSpecView::empty().with_gx_defaults(0x0c)
        },
        KeyboardModel::G410 | KeyboardModel::G512 | KeyboardModel::G513 | KeyboardModel::GPro => {
            ModelSpecView {
                commit: Some(spec_commit_gx()),
                group_addresses: spec_addr_gx(),
                ..ModelSpecView::empty().with_gx_defaults(0x0d)
            }
        },
        KeyboardModel::G610 | KeyboardModel::G810 => ModelSpecView {
            commit: Some(spec_commit_gx()),
            group_addresses: spec_addr_g610_g810(),
            ..ModelSpecView::empty().with_gx_defaults(0x0d)
        },
        KeyboardModel::G815 => ModelSpecView {
            commit: Some(seq![0x11u8, 0xff, 0x10, 0x7f]),
            group_addresses: spec_addr_g815(),
            effect_params: Some((0x0fu8, 0x1cu8)),
            mr_header: Some(seq![0x11u8, 0xff, 0x0c, 0x0c]),
            mn_header: Some(seq![0x11u8, 0xff, 0x0b, 0x1c]),
            mn_map: Some(seq![(0x01u8, 0x01u8), (0x02u8, 0x02u8), (0x03u8, 0x04u8)]),
            gkeys_header: Some(seq![0x11u8, 0xff, 0x0a, 0x2b]),
            onboard_header: Some(seq![0x11u8, 0xff, 0x11, 0x1a]),
            keys_header: Some(seq![0x11u8, 0xff, 0x10, 0x6c]),
            ..ModelSpecView::empty()
        },
        KeyboardModel::G910 => ModelSpecView {
            commit: Some(seq![0x11u8, 0xff, 0x0f, 0x5d]),
            group_addresses: spec_addr_g910(),
            effect_params: Some((0x10u8, 0x3cu8)),
            mr_header: Some(seq![0x11u8, 0xff, 0x0a, 0x0e]),
            mn_header: Some(seq![0x11u8, 0xff, 0x09, 0x1e]),
            gkeys_header: Some(seq![0x11u8, 0xff, 0x08, 0x2e]),
            startup_header: Some(seq![0x11u8, 0xff, 0x10, 0x5e, 0x00, 0x01]),
            ..ModelSpecView::empty()
        },
    }
}

fn addr_gx() -> (table: &'static [(u8, &'static [u8])])
    ensures
        addresses_view(table) == spec_addr_gx(),
{
    let table: &'static [(u8, &'static [u8])] = &[
        (0, &[0x11, 0xff, 0x0c, 0x3a, 0x00, 0x10, 0x00, 0x01]),
        (1, &[0x12, 0xff, 0x0c, 0x3a, 0x00, 0x40, 0x00, 0x05]),
        (4, &[0x12, 0xff, 0x0f, 0x3d, 0x00, 0x01, 0x00, 0x0e]),
    ];
    assert(addresses_view(table) =~= spec_addr_gx());
    table
}

fn addr_g610_g810() -> (table: &'static [(u8, &'static [u8])])
    ensures
        addresses_view(table) == spec_addr_g610_g810(),
{
    let table: &'static [(u8, &'static [u8])] = &[
        (0, &[0x11, 0xff, 0x0c, 0x3a, 0x00, 0x10, 0x00, 0x01]),
        (1, &[0x12, 0xff, 0x0c, 0x3a, 0x00, 0x40, 0x00, 0x05]),
        (4, &[0x12, 0xff, 0x0f, 0x3d, 0x00, 0x01, 0x00, 0x0e]),
        (2, &[0x12, 0xff, 0x0c, 0x3a, 0x00, 0x02, 0x00, 0x05]),
    ];
    assert(addresses_view(table) =~= spec_addr_g610_g810());
    table
}

fn addr_g815() -> (table: &'static [(u8, &'static [u8])])
    ensures
        addresses_view(table) == spec_addr_g815(),
{
    let table: &'static [(u8, &'static [u8])] = &[(0, &[0x11, 0xff, 0x10, 0x1c])];
    assert(addresses_view(table) =~= spec_addr_g815());
    table
}

fn addr_g910() -> (table: &'static [(u8, &'static [u8])])
    ensures
        addresses_view(table) == spec_addr_g910(),
{
    let table: &'static [(u8, &'static [u8])] = &[
        (0, &[0x11, 0xff, 0x0f, 0x3a, 0x00, 0x10, 0x00, 0x02]),
        (1, &[0x12, 0xff, 0x0c, 0x3a, 0x00, 0x40, 0x00, 0x05]),
        (3, &[0x12, 0xff, 0x0f, 0x3e, 0x00, 0x04, 0x00, 0x09]),
        (4, &[0x12, 0xff, 0x0f, 0x3d, 0x00, 0x01, 0x00, 0x0e]),
    ];
    assert(addresses_view(table) =~= spec_addr_g910());
    table
}

impl KeyboardModel {
    /// The protocol parameters of this model.
    pub fn spec(self) -> (spec: ModelSpec)
        ensures
            spec@ == spec_model_spec(self),
    {
        match self {
            KeyboardModel::Unknown => ModelSpec::builder(),
            KeyboardModel::G213 => ModelSpec::builder().group_addresses(addr_gx()).with_gx_defaults(
                0x0c,
            ).region_header(&[0x11, 0xff, 0x0c, 0x3a]),
            KeyboardModel::G413 => ModelSpec::builder().group_addresses(addr_gx()).with_gx_defaults(
                0x0c,
            ),
            KeyboardModel::G410
            | KeyboardModel::G512
            | KeyboardModel::G513
            | KeyboardModel::GPro => {
                ModelSpec::builder().commit(&[0x11, 0xff, 0x0c, 0x5a]).group_addresses(
                    addr_gx(),
                ).with_gx_defaults(0x0d)
            },
            KeyboardModel::G610 | KeyboardModel::G810 => ModelSpec::builder().commit(
                &[0x11, 0xff, 0x0c, 0x5a],
            ).group_addresses(addr_g610_g810()).with_gx_defaults(0x0d),
            KeyboardModel::G815 => ModelSpec::builder().commit(
                &[0x11, 0xff, 0x10, 0x7f],
            ).group_addresses(addr_g815()).effect_params(0x0f, 0x1c).mr_header(
                &[0x11, 0xff, 0x0c, 0x0c],
            ).mn_header(&[0x11, 0xff, 0x0b, 0x1c]).mn_map(
                &[(0x01, 0x01), (0x02, 0x02), (0x03, 0x04)],
            ).gkeys_header(&[0x11, 0xff, 0x0a, 0x2b]).onboard_header(
                &[0x11, 0xff, 0x11, 0x1a],
            ).keys_header(&[0x11, 0xff, 0x10, 0x6c]),
            KeyboardModel::G910 => ModelSpec::builder().commit(
                &[0x11, 0xff, 0x0f, 0x5d],
            ).group_addresses(addr_g910()).effect_params(0x10, 0x3c).mr_header(
                &[0x11, 0xff, 0x0a, 0x0e],
            ).mn_header(&[0x11, 0xff, 0x09, 0x1e]).gkeys_header(
                &[0x11, 0xff, 0x08, 0x2e],
            ).startup_header(&[0x11, 0xff, 0x10, 0x5e, 0x00, 0x01]),
        }
    }
}

} // verus!
