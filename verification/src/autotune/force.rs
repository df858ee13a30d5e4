//! The guarded experiment override: which settings of the automatic tuning an
//! operator pins, read from a JSON object.

use vstd::prelude::*;

use crate::fec::FecGeometryV2;
use crate::json::{member_texts, parsed_json, read_json};
use crate::text::{
    chars_of, find_char, next_char, parse_number, parsed_number, same_text,
};
use crate::tuning::{Bbr3PresetV2, CoverTrafficProfileV2, ForcedActionV2};

verus! {

/// Numbers of the override.
#[derive(Clone, Copy, Debug, PartialEq, Eq, Structural)]
pub enum ForceNumberV2 {
    DataCells,
    ParityCells,
    TrainTargetBytes,
    BulkQuantumCells,
    CoverOverheadPerMille,
}

/// Why an override was refused.
#[derive(Clone, Copy, Debug, PartialEq, Eq, Structural)]
pub enum ForceErrorV2 {
    /// The text is no JSON document.
    InvalidJson,
    /// The document is no object.
    NotAnObject,
    /// The object has a member that names no setting.
    UnknownField,
    /// The cover profile is no string.
    CoverProfileNotText,
    /// No cover profile has that name.
    CoverProfileUnknown,
    /// No preset has that name.
    BbrPresetUnknown,
    /// A number is no natural number.
    NotAnInteger(ForceNumberV2),
    /// A number is too large for its setting.
    TooLarge(ForceNumberV2),
    /// The protection is neither off nor data, plus sign and parity.
    FecForm,
    /// The data count of the protection is no number.
    FecDataCount,
    /// The parity count of the protection is no number.
    FecParityCount,
    /// The protection is neither null nor a string nor an object.
    FecNotAnObject,
    /// The protection object has a member that names no count.
    FecUnknownField,
    /// The protection object lacks a count.
    FecCountMissing(ForceNumberV2),
    /// The stripe is outside the code's bounds.
    FecGeometry,
    /// The stripe's parity costs more than half of its data.
    FecOverhead,
    /// The object pins nothing.
    NoOverride,
}

/// A member of a nested object.
#[derive(Debug)]
pub struct ForceMemberV2 {
    pub name: String,
    pub unsigned: Option<u64>,
    pub null: bool,
}

/// The value of a member.
#[derive(Debug)]
pub enum ForceValueV2 {
    Null,
    Unsigned(u64),
    Text(String),
    Object(Vec<ForceMemberV2>),
    Other,
}

/// A member of the override object.
#[derive(Debug)]
pub struct ForceFieldV2 {
    pub name: String,
    pub value: ForceValueV2,
}

/// A member of a nested object over plain values.
#[verifier::ext_equal]
pub ghost struct MemberModel {
    pub name: Seq<char>,
    pub unsigned: Option<u64>,
    pub null: bool,
}

/// The value of a member over plain values.
#[verifier::ext_equal]
pub ghost enum ValueModel {
    Null,
    Unsigned(u64),
    Text(Seq<char>),
    Object(Seq<MemberModel>),
    Other,
}

/// A member of the override object over plain values.
#[verifier::ext_equal]
pub ghost struct FieldModel {
    pub name: Seq<char>,
    pub value: ValueModel,
}

impl ForceMemberV2 {
    /// The member over plain values.
    pub open spec fn model(&self) -> MemberModel {
        MemberModel { name: self.name@, unsigned: self.unsigned, null: self.null }
    }
}

/// The members over plain values.
pub open spec fn member_models(members: Seq<ForceMemberV2>) -> Seq<MemberModel> {
    members.map_values(|member: ForceMemberV2| member.model())
}

impl ForceValueV2 {
    /// The value over plain values.
    pub open spec fn model(&self) -> ValueModel {
        match *self {
            ForceValueV2::Null => ValueModel::Null,
            ForceValueV2::Unsigned(number) => ValueModel::Unsigned(number),
            ForceValueV2::Text(text) => ValueModel::Text(text@),
            ForceValueV2::Object(members) => ValueModel::Object(member_models(members@)),
            ForceValueV2::Other => ValueModel::Other,
        }
    }
}

impl ForceFieldV2 {
    /// The member over plain values.
    pub open spec fn model(&self) -> FieldModel {
        FieldModel { name: self.name@, value: self.value.model() }
    }
}

/// The members over plain values.
pub open spec fn field_models(fields: Seq<ForceFieldV2>) -> Seq<FieldModel> {
    fields.map_values(|field: ForceFieldV2| field.model())
}

/// What the documents of a nested object hold.
pub open spec fn members_in(members: Seq<(Seq<char>, Seq<char>)>) -> Seq<MemberModel> {
    members.map_values(
        |member: (Seq<char>, Seq<char>)|
            match parsed_json(member.1) {
                Some(reading) => MemberModel {
                    name: member.0,
                    unsigned: reading.1,
                    null: reading.0,
                },
                None => MemberModel { name: member.0, unsigned: None, null: false },
            },
    )
}

/// What the document of a member holds.
pub open spec fn value_in(text: Seq<char>) -> ValueModel {
    match parsed_json(text) {
        None => ValueModel::Other,
        Some(reading) => if reading.0 {
            ValueModel::Null
        } else if let Some(number) = reading.1 {
            ValueModel::Unsigned(number)
        } else if let Some(string) = reading.2 {
            ValueModel::Text(string)
        } else if let Some(members) = reading.3 {
            ValueModel::Object(members_in(members))
        } else {
            ValueModel::Other
        },
    }
}

/// What the documents of the override object hold.
pub open spec fn fields_in(members: Seq<(Seq<char>, Seq<char>)>) -> Seq<FieldModel> {
    members.map_values(
        |member: (Seq<char>, Seq<char>)| FieldModel { name: member.0, value: value_in(member.1) },
    )
}

/// Read the documents of a nested object.
fn read_members(members: &Vec<(String, String)>) -> (r: Vec<ForceMemberV2>)
    ensures
        member_models(r@) == members_in(member_texts(members@)),
{
    let mut output: Vec<ForceMemberV2> = Vec::new();
    let mut index: usize = 0;
    while index < members.len()
        invariant
            index <= members@.len(),
            output@.len() == index,
            forall|i: int|
                0 <= i < index ==> (#[trigger] output@[i]).model() == members_in(
                    member_texts(members@),
                )[i],
        decreases members@.len() - index,
    {
        let name: String = members[index].0.clone();
        assert(member_texts(members@)[index as int] == (
            members@[index as int].0@,
            members@[index as int].1@,
        ));
        match read_json(members[index].1.as_str()) {
            Some(reading) => output.push(
                ForceMemberV2 { name, unsigned: reading.unsigned, null: reading.null },
            ),
            None => output.push(ForceMemberV2 { name, unsigned: None, null: false }),
        }
        index = index + 1;
    }
    assert(member_models(output@) =~= members_in(member_texts(members@)));
    output
}

/// Read the document of a member.
fn read_value(text: &str) -> (r: ForceValueV2)
    ensures
        r.model() == value_in(text@),
{
    match read_json(text) {
        None => ForceValueV2::Other,
        Some(reading) => {
            if reading.null {
                return ForceValueV2::Null;
            }
            if let Some(number) = reading.unsigned {
                return ForceValueV2::Unsigned(number);
            }
            if let Some(string) = reading.text {
                return ForceValueV2::Text(string);
            }
            match reading.members {
                Some(members) => ForceValueV2::Object(read_members(&members)),
                None => ForceValueV2::Other,
            }
        },
    }
}

/// Read the documents of the override object.
fn read_fields(members: &Vec<(String, String)>) -> (r: Vec<ForceFieldV2>)
    ensures
        field_models(r@) == fields_in(member_texts(members@)),
{
    let mut output: Vec<ForceFieldV2> = Vec::new();
    let mut index: usize = 0;
    while index < members.len()
        invariant
            index <= members@.len(),
            output@.len() == index,
            forall|i: int|
                0 <= i < index ==> (#[trigger] output@[i]).model() == fields_in(
                    member_texts(members@),
                )[i],
        decreases members@.len() - index,
    {
        let name: String = members[index].0.clone();
        assert(member_texts(members@)[index as int] == (
            members@[index as int].0@,
            members@[index as int].1@,
        ));
        output.push(ForceFieldV2 { name, value: read_value(members[index].1.as_str()) });
        index = index + 1;
    }
    assert(field_models(output@) =~= fields_in(member_texts(members@)));
    output
}

/// The value under a name.
pub open spec fn lookup(fields: Seq<FieldModel>, name: Seq<char>) -> Option<ValueModel>
    decreases fields.len(),
{
    if fields.len() == 0 {
        None
    } else if fields[0].name == name {
        Some(fields[0].value)
    } else {
        lookup(fields.drop_first(), name)
    }
}

/// The member under a name.
pub open spec fn member_lookup(members: Seq<MemberModel>, name: Seq<char>) -> Option<MemberModel>
    decreases members.len(),
{
    if members.len() == 0 {
        None
    } else if members[0].name == name {
        Some(members[0])
    } else {
        member_lookup(members.drop_first(), name)
    }
}

/// Where a name stands.
fn find_field(fields: &Vec<ForceFieldV2>, name: &str) -> (r: Option<usize>)
    ensures
        r is Some == lookup(field_models(fields@), name@) is Some,
        r matches Some(index) ==> index < fields@.len() && lookup(field_models(fields@), name@)
            == Some(fields@[index as int].value.model()),
{
    let ghost all = field_models(fields@);
    let mut index: usize = 0;
    assert(all.skip(0) =~= all);
    while index < fields.len()
        invariant
            index <= fields@.len(),
            all == field_models(fields@),
            lookup(all, name@) == lookup(all.skip(index as int), name@),
        decreases fields@.len() - index,
    {
        proof {
            assert(all.skip(index as int)[0] == fields@[index as int].model());
            assert(all.skip(index as int).drop_first() =~= all.skip(index + 1));
        }
        if same_text(fields[index].name.as_str(), name) {
            return Some(index);
        }
        index = index + 1;
    }
    assert(all.skip(index as int).len() == 0);
    None
}

/// Where a name stands.
fn find_member(members: &Vec<ForceMemberV2>, name: &str) -> (r: Option<usize>)
    ensures
        r is Some == member_lookup(member_models(members@), name@) is Some,
        r matches Some(index) ==> index < members@.len() && member_lookup(
            member_models(members@),
            name@,
        ) == Some(members@[index as int].model()),
{
    let ghost all = member_models(members@);
    let mut index: usize = 0;
    assert(all.skip(0) =~= all);
    while index < members.len()
        invariant
            index <= members@.len(),
            all == member_models(members@),
            member_lookup(all, name@) == member_lookup(all.skip(index as int), name@),
        decreases members@.len() - index,
    {
        proof {
            assert(all.skip(index as int)[0] == members@[index as int].model());
            assert(all.skip(index as int).drop_first() =~= all.skip(index + 1));
        }
        if same_text(members[index].name.as_str(), name) {
            return Some(index);
        }
        index = index + 1;
    }
    assert(all.skip(index as int).len() == 0);
    None
}

/// Whether a name is one of the settings.
pub open spec fn names_setting(name: Seq<char>) -> bool {
    ||| name == "bbr_preset"@
    ||| name == "fec"@
    ||| name == "train_target_bytes"@
    ||| name == "bulk_quantum_cells"@
    ||| name == "cover_profile"@
    ||| name == "cover_overhead_per_mille"@
}

/// Whether a name is one of the counts.
pub open spec fn names_count(name: Seq<char>) -> bool {
    name == "data_cells"@ || name == "parity_cells"@
}

/// Whether every member names a setting.
fn all_settings(fields: &Vec<ForceFieldV2>) -> (r: bool)
    ensures
        r == (forall|i: int|
            0 <= i < fields@.len() ==> names_setting(#[trigger] field_models(fields@)[i].name)),
{
    let mut index: usize = 0;
    while index < fields.len()
        invariant
            index <= fields@.len(),
            forall|i: int|
                0 <= i < index ==> names_setting(#[trigger] field_models(fields@)[i].name),
        decreases fields@.len() - index,
    {
        let name: &str = fields[index].name.as_str();
        assert(field_models(fields@)[index as int].name == name@);
        if !(same_text(name, "bbr_preset") || same_text(name, "fec") || same_text(
            name,
            "train_target_bytes",
        ) || same_text(name, "bulk_quantum_cells") || same_text(name, "cover_profile")
            || same_text(name, "cover_overhead_per_mille")) {
            return false;
        }
        index = index + 1;
    }
    true
}

/// Whether every member names a count.
fn all_counts(members: &Vec<ForceMemberV2>) -> (r: bool)
    ensures
        r == (forall|i: int|
            0 <= i < members@.len() ==> names_count(#[trigger] member_models(members@)[i].name)),
{
    let mut index: usize = 0;
    while index < members.len()
        invariant
            index <= members@.len(),
            forall|i: int|
                0 <= i < index ==> names_count(#[trigger] member_models(members@)[i].name),
        decreases members@.len() - index,
    {
        let name: &str = members[index].name.as_str();
        assert(member_models(members@)[index as int].name == name@);
        if !(same_text(name, "data_cells") || same_text(name, "parity_cells")) {
            return false;
        }
        index = index + 1;
    }
    true
}

/// A number that fits its setting.
pub open spec fn number_of(unsigned: Option<u64>, max: int, number: ForceNumberV2) -> Result<
    u64,
    ForceErrorV2,
> {
    match unsigned {
        None => Err(ForceErrorV2::NotAnInteger(number)),
        Some(value) => if value > max {
            Err(ForceErrorV2::TooLarge(number))
        } else {
            Ok(value)
        },
    }
}

/// A number that fits its setting.
fn take_number(unsigned: Option<u64>, max: u64, number: ForceNumberV2) -> (r: Result<
    u64,
    ForceErrorV2,
>)
    ensures
        r == number_of(unsigned, max as int, number),
{
    match unsigned {
        None => Err(ForceErrorV2::NotAnInteger(number)),
        Some(value) => if value > max {
            Err(ForceErrorV2::TooLarge(number))
        } else {
            Ok(value)
        },
    }
}

/// The natural number that a value is.
pub open spec fn unsigned_of(value: ValueModel) -> Option<u64> {
    match value {
        ValueModel::Unsigned(number) => Some(number),
        _ => None,
    }
}

/// A pinned number, where the object names it.
pub open spec fn forced_number(
    fields: Seq<FieldModel>,
    name: Seq<char>,
    max: int,
    number: ForceNumberV2,
) -> Result<Option<u64>, ForceErrorV2> {
    match lookup(fields, name) {
        None => Ok(None),
        Some(value) => match number_of(unsigned_of(value), max, number) {
            Ok(value) => Ok(Some(value)),
            Err(error) => Err(error),
        },
    }
}

/// A pinned number, where the object names it.
fn take_forced_number(
    fields: &Vec<ForceFieldV2>,
    name: &str,
    max: u64,
    number: ForceNumberV2,
) -> (r: Result<Option<u64>, ForceErrorV2>)
    ensures
        r == forced_number(field_models(fields@), name@, max as int, number),
{
    match find_field(fields, name) {
        None => Ok(None),
        Some(index) => {
            let unsigned: Option<u64> = match &fields[index].value {
                ForceValueV2::Unsigned(value) => Some(*value),
                _ => None,
            };
            match take_number(unsigned, max, number) {
                Ok(value) => Ok(Some(value)),
                Err(error) => Err(error),
            }
        },
    }
}

/// A count that the protection object must hold.
pub open spec fn forced_count(
    members: Seq<MemberModel>,
    name: Seq<char>,
    number: ForceNumberV2,
) -> Result<u64, ForceErrorV2> {
    match member_lookup(members, name) {
        None => Err(ForceErrorV2::FecCountMissing(number)),
        Some(member) => number_of(member.unsigned, usize::MAX as int, number),
    }
}

/// A count that the protection object must hold.
fn take_forced_count(members: &Vec<ForceMemberV2>, name: &str, number: ForceNumberV2) -> (r: Result<
    u64,
    ForceErrorV2,
>)
    ensures
        r == forced_count(member_models(members@), name@, number),
{
    match find_member(members, name) {
        None => Err(ForceErrorV2::FecCountMissing(number)),
        Some(index) => take_number(members[index].unsigned, usize::MAX as u64, number),
    }
}

/// The stripe that a text names: data, plus sign, parity.
pub open spec fn geometry_text(text: Seq<char>) -> Result<(int, int), ForceErrorV2> {
    let at = next_char(text, 0, text.len() as int, '+');
    if at >= text.len() {
        Err(ForceErrorV2::FecForm)
    } else {
        match parsed_number(text.subrange(0, at), usize::MAX as int) {
            None => Err(ForceErrorV2::FecDataCount),
            Some(data) => match parsed_number(
                text.subrange(at + 1, text.len() as int),
                usize::MAX as int,
            ) {
                None => Err(ForceErrorV2::FecParityCount),
                Some(parity) => Ok((data, parity)),
            },
        }
    }
}

/// The stripe that an object names.
pub open spec fn geometry_object(members: Seq<MemberModel>) -> Result<(int, int), ForceErrorV2> {
    if !(forall|i: int| 0 <= i < members.len() ==> names_count(#[trigger] members[i].name)) {
        Err(ForceErrorV2::FecUnknownField)
    } else {
        match forced_count(members, "data_cells"@, ForceNumberV2::DataCells) {
            Err(error) => Err(error),
            Ok(data) => match forced_count(members, "parity_cells"@, ForceNumberV2::ParityCells) {
                Err(error) => Err(error),
                Ok(parity) => Ok((data as int, parity as int)),
            },
        }
    }
}

/// A stripe inside the code's bounds and the overhead guard.
pub open spec fn guarded_geometry(counts: Result<(int, int), ForceErrorV2>) -> Result<
    Option<FecGeometryV2>,
    ForceErrorV2,
> {
    match counts {
        Err(error) => Err(error),
        Ok((data, parity)) => {
            let geometry = FecGeometryV2 {
                data_cells: data as usize,
                parity_cells: parity as usize,
            };
            if !geometry.is_valid() {
                Err(ForceErrorV2::FecGeometry)
            } else if !geometry.within_half_overhead() {
                Err(ForceErrorV2::FecOverhead)
            } else {
                Ok(Some(geometry))
            }
        },
    }
}

/// The pinned protection: off, or a stripe.
pub open spec fn forced_fec(value: ValueModel) -> Result<Option<FecGeometryV2>, ForceErrorV2> {
    match value {
        ValueModel::Null => Ok(None),
        ValueModel::Text(text) => if text == "off"@ {
            Ok(None)
        } else {
            guarded_geometry(geometry_text(text))
        },
        ValueModel::Object(members) => guarded_geometry(geometry_object(members)),
        _ => Err(ForceErrorV2::FecNotAnObject),
    }
}

/// A stripe inside the code's bounds and the overhead guard.
fn guard_geometry(data: u64, parity: u64) -> (r: Result<Option<FecGeometryV2>, ForceErrorV2>)
    requires
        data <= usize::MAX,
        parity <= usize::MAX,
    ensures
        r == guarded_geometry(Ok((data as int, parity as int))),
{
    let geometry: FecGeometryV2 = FecGeometryV2 {
        data_cells: data as usize,
        parity_cells: parity as usize,
    };
    if !geometry.is_valid() {
        return Err(ForceErrorV2::FecGeometry);
    }
    if !geometry.within_half_overhead() {
        return Err(ForceErrorV2::FecOverhead);
    }
    Ok(Some(geometry))
}

/// Read the pinned protection: off, `DATA+PARITY`, or an object with both
/// counts. Parity may cost at most half of the data.
pub fn parse_forced_fec(value: &ForceValueV2) -> (r: Result<Option<FecGeometryV2>, ForceErrorV2>)
    ensures
        r == forced_fec(value.model()),
{
    match value {
        ForceValueV2::Null => Ok(None),
        ForceValueV2::Text(text) => {
            if same_text(text.as_str(), "off") {
                return Ok(None);
            }
            let chars: Vec<char> = chars_of(text.as_str());
            let at: usize = find_char(&chars, 0, chars.len(), '+');
            if at >= chars.len() {
                return Err(ForceErrorV2::FecForm);
            }
            match parse_number(&chars, 0, at, usize::MAX as u64) {
                None => Err(ForceErrorV2::FecDataCount),
                Some(data) => match parse_number(&chars, at + 1, chars.len(), usize::MAX as u64) {
                    None => Err(ForceErrorV2::FecParityCount),
                    Some(parity) => guard_geometry(data, parity),
                },
            }
        },
        ForceValueV2::Object(members) => {
            if !all_counts(members) {
                return Err(ForceErrorV2::FecUnknownField);
            }
            match take_forced_count(members, "data_cells", ForceNumberV2::DataCells) {
                Err(error) => Err(error),
                Ok(data) => match take_forced_count(
                    members,
                    "parity_cells",
                    ForceNumberV2::ParityCells,
                ) {
                    Err(error) => Err(error),
                    Ok(parity) => guard_geometry(data, parity),
                },
            }
        },
        _ => Err(ForceErrorV2::FecNotAnObject),
    }
}

/// The cover profile with a name.
pub open spec fn cover_profile_named(name: Seq<char>) -> Option<CoverTrafficProfileV2> {
    if name == "idle"@ {
        Some(CoverTrafficProfileV2::Idle)
    } else if name == "live-broadcast"@ {
        Some(CoverTrafficProfileV2::LiveBroadcast)
    } else if name == "interactive-video"@ {
        Some(CoverTrafficProfileV2::InteractiveVideo)
    } else if name == "generic-h3-bulk"@ {
        Some(CoverTrafficProfileV2::GenericH3Bulk)
    } else {
        None
    }
}

/// The pinned cover profile, where the object names it.
pub open spec fn forced_cover_profile(fields: Seq<FieldModel>) -> Result<
    Option<CoverTrafficProfileV2>,
    ForceErrorV2,
> {
    match lookup(fields, "cover_profile"@) {
        None => Ok(None),
        Some(ValueModel::Text(name)) => match cover_profile_named(name) {
            Some(profile) => Ok(Some(profile)),
            None => Err(ForceErrorV2::CoverProfileUnknown),
        },
        Some(_) => Err(ForceErrorV2::CoverProfileNotText),
    }
}

/// The pinned cover profile, where the object names it.
fn take_cover_profile(fields: &Vec<ForceFieldV2>) -> (r: Result<
    Option<CoverTrafficProfileV2>,
    ForceErrorV2,
>)
    ensures
        r == forced_cover_profile(field_models(fields@)),
{
    match find_field(fields, "cover_profile") {
        None => Ok(None),
        Some(index) => match &fields[index].value {
            ForceValueV2::Text(name) => {
                if same_text(name.as_str(), "idle") {
                    Ok(Some(CoverTrafficProfileV2::Idle))
                } else if same_text(name.as_str(), "live-broadcast") {
                    Ok(Some(CoverTrafficProfileV2::LiveBroadcast))
                } else if same_text(name.as_str(), "interactive-video") {
                    Ok(Some(CoverTrafficProfileV2::InteractiveVideo))
                } else if same_text(name.as_str(), "generic-h3-bulk") {
                    Ok(Some(CoverTrafficProfileV2::GenericH3Bulk))
                } else {
                    Err(ForceErrorV2::CoverProfileUnknown)
                }
            },
            _ => Err(ForceErrorV2::CoverProfileNotText),
        },
    }
}

/// The controller preset with a name.
pub open spec fn preset_named(name: Seq<char>) -> Option<Bbr3PresetV2> {
    if name == "shared-conservative"@ {
        Some(Bbr3PresetV2::SharedConservative)
    } else if name == "private-aggressive"@ {
        Some(Bbr3PresetV2::PrivateAggressive)
    } else if name == "lossy-radio"@ {
        Some(Bbr3PresetV2::LossyRadio)
    } else if name == "policer"@ {
        Some(Bbr3PresetV2::Policer)
    } else if name == "long-fat"@ {
        Some(Bbr3PresetV2::LongFat)
    } else if name == "relay-reliable"@ {
        Some(Bbr3PresetV2::RelayReliable)
    } else if name == "low-rtt-host"@ {
        Some(Bbr3PresetV2::LowRttHost)
    } else {
        None
    }
}

/// The controller preset with a name.
fn find_preset(name: &str) -> (r: Option<Bbr3PresetV2>)
    ensures
        r == preset_named(name@),
{
    if same_text(name, "shared-conservative") {
        Some(Bbr3PresetV2::SharedConservative)
    } else if same_text(name, "private-aggressive") {
        Some(Bbr3PresetV2::PrivateAggressive)
    } else if same_text(name, "lossy-radio") {
        Some(Bbr3PresetV2::LossyRadio)
    } else if same_text(name, "policer") {
        Some(Bbr3PresetV2::Policer)
    } else if same_text(name, "long-fat") {
        Some(Bbr3PresetV2::LongFat)
    } else if same_text(name, "relay-reliable") {
        Some(Bbr3PresetV2::RelayReliable)
    } else if same_text(name, "low-rtt-host") {
        Some(Bbr3PresetV2::LowRttHost)
    } else {
        None
    }
}

/// The pinned preset, where the object names one that is not null: its name,
/// or an object whose only member has that name and holds null.
pub open spec fn forced_preset(fields: Seq<FieldModel>) -> Result<
    Option<Bbr3PresetV2>,
    ForceErrorV2,
> {
    match lookup(fields, "bbr_preset"@) {
        None => Ok(None),
        Some(ValueModel::Null) => Ok(None),
        Some(value) => {
            let preset = match value {
                ValueModel::Text(name) => preset_named(name),
                ValueModel::Object(members) => if members.len() == 1 && members[0].null {
                    preset_named(members[0].name)
                } else {
                    None
                },
                _ => None,
            };
            if preset is Some {
                Ok(preset)
            } else {
                Err(ForceErrorV2::BbrPresetUnknown)
            }
        },
    }
}

/// The pinned preset, where the object names one that is not null.
fn take_preset(fields: &Vec<ForceFieldV2>) -> (r: Result<Option<Bbr3PresetV2>, ForceErrorV2>)
    ensures
        r == forced_preset(field_models(fields@)),
{
    match find_field(fields, "bbr_preset") {
        None => Ok(None),
        Some(index) => {
            let preset: Option<Bbr3PresetV2> = match &fields[index].value {
                ForceValueV2::Null => {
                    return Ok(None);
                },
                ForceValueV2::Text(name) => find_preset(name.as_str()),
                ForceValueV2::Object(members) => {
                    if members.len() == 1 && members[0].null {
                        assert(member_models(members@)[0] == members@[0].model());
                        find_preset(members[0].name.as_str())
                    } else {
                        proof {
                            if members@.len() == 1 {
                                assert(member_models(members@)[0] == members@[0].model());
                            }
                        }
                        None
                    }
                },
                _ => None,
            };
            match preset {
                Some(preset) => Ok(Some(preset)),
                None => Err(ForceErrorV2::BbrPresetUnknown),
            }
        },
    }
}

/// The pinned protection, where the object names it.
pub open spec fn forced_protection(fields: Seq<FieldModel>) -> Result<
    Option<Option<FecGeometryV2>>,
    ForceErrorV2,
> {
    match lookup(fields, "fec"@) {
        None => Ok(None),
        Some(value) => match forced_fec(value) {
            Ok(fec) => Ok(Some(fec)),
            Err(error) => Err(error),
        },
    }
}

/// The settings that an object pins. Members are checked in a fixed order, and
/// the first fault is the one reported.
pub open spec fn forced_settings(fields: Seq<FieldModel>) -> Result<ForcedActionV2, ForceErrorV2> {
    if !(forall|i: int| 0 <= i < fields.len() ==> names_setting(#[trigger] fields[i].name)) {
        Err(ForceErrorV2::UnknownField)
    } else {
        match (
            forced_cover_profile(fields),
            forced_number(
                fields,
                "cover_overhead_per_mille"@,
                u16::MAX as int,
                ForceNumberV2::CoverOverheadPerMille,
            ),
            forced_preset(fields),
            forced_protection(fields),
            forced_number(
                fields,
                "train_target_bytes"@,
                usize::MAX as int,
                ForceNumberV2::TrainTargetBytes,
            ),
            forced_number(
                fields,
                "bulk_quantum_cells"@,
                usize::MAX as int,
                ForceNumberV2::BulkQuantumCells,
            ),
        ) {
            (Err(error), _, _, _, _, _) => Err(error),
            (_, Err(error), _, _, _, _) => Err(error),
            (_, _, Err(error), _, _, _) => Err(error),
            (_, _, _, Err(error), _, _) => Err(error),
            (_, _, _, _, Err(error), _) => Err(error),
            (_, _, _, _, _, Err(error)) => Err(error),
            (Ok(profile), Ok(overhead), Ok(preset), Ok(fec), Ok(train), Ok(quantum)) => {
                let forced = ForcedActionV2 {
                    bbr_preset: preset,
                    fec,
                    train_target_bytes: narrowed_usize(train),
                    bulk_quantum_cells: narrowed_usize(quantum),
                    cover_profile: profile,
                    cover_overhead_per_mille: narrowed_u16(overhead),
                };
                if forced == ForcedActionV2::nothing() {
                    Err(ForceErrorV2::NoOverride)
                } else {
                    Ok(forced)
                }
            },
        }
    }
}

/// A number as a machine word.
pub open spec fn narrowed_usize(number: Option<u64>) -> Option<usize> {
    match number {
        Some(value) => Some(value as usize),
        None => None,
    }
}

/// A number as a short word.
pub open spec fn narrowed_u16(number: Option<u64>) -> Option<u16> {
    match number {
        Some(value) => Some(value as u16),
        None => None,
    }
}

/// The settings that an object pins.
pub fn forced_action(fields: &Vec<ForceFieldV2>) -> (r: Result<ForcedActionV2, ForceErrorV2>)
    ensures
        r == forced_settings(field_models(fields@)),
{
    if !all_settings(fields) {
        return Err(ForceErrorV2::UnknownField);
    }
    assert(field_models(fields@).len() == fields@.len());
    let cover_profile: Option<CoverTrafficProfileV2> = match take_cover_profile(fields) {
        Ok(profile) => profile,
        Err(error) => {
            return Err(error);
        },
    };
    let cover_overhead_per_mille: Option<u64> = match take_forced_number(
        fields,
        "cover_overhead_per_mille",
        u16::MAX as u64,
        ForceNumberV2::CoverOverheadPerMille,
    ) {
        Ok(overhead) => overhead,
        Err(error) => {
            return Err(error);
        },
    };
    let bbr_preset: Option<Bbr3PresetV2> = match take_preset(fields) {
        Ok(preset) => preset,
        Err(error) => {
            return Err(error);
        },
    };
    let fec: Option<Option<FecGeometryV2>> = match find_field(fields, "fec") {
        None => None,
        Some(index) => match parse_forced_fec(&fields[index].value) {
            Ok(fec) => Some(fec),
            Err(error) => {
                return Err(error);
            },
        },
    };
    let train_target_bytes: Option<u64> = match take_forced_number(
        fields,
        "train_target_bytes",
        usize::MAX as u64,
        ForceNumberV2::TrainTargetBytes,
    ) {
        Ok(train) => train,
        Err(error) => {
            return Err(error);
        },
    };
    let bulk_quantum_cells: Option<u64> = match take_forced_number(
        fields,
        "bulk_quantum_cells",
        usize::MAX as u64,
        ForceNumberV2::BulkQuantumCells,
    ) {
        Ok(quantum) => quantum,
        Err(error) => {
            return Err(error);
        },
    };
    if bbr_preset.is_none() && fec.is_none() && train_target_bytes.is_none()
        && bulk_quantum_cells.is_none() && cover_profile.is_none()
        && cover_overhead_per_mille.is_none() {
        return Err(ForceErrorV2::NoOverride);
    }
    Ok(
        ForcedActionV2 {
            bbr_preset,
            fec,
            train_target_bytes: match train_target_bytes {
                Some(value) => Some(value as usize),
                None => None,
            },
            bulk_quantum_cells: match bulk_quantum_cells {
                Some(value) => Some(value as usize),
                None => None,
            },
            cover_profile,
            cover_overhead_per_mille: match cover_overhead_per_mille {
                Some(value) => Some(value as u16),
                None => None,
            },
        },
    )
}

/// The settings that a text pins.
pub open spec fn forced_by(text: Seq<char>) -> Result<ForcedActionV2, ForceErrorV2> {
    match parsed_json(text) {
        None => Err(ForceErrorV2::InvalidJson),
        Some(reading) => match reading.3 {
            None => Err(ForceErrorV2::NotAnObject),
            Some(members) => forced_settings(fields_in(members)),
        },
    }
}

/// Read an experiment override.
pub fn parse_autotune_force(input: &str) -> (r: Result<ForcedActionV2, ForceErrorV2>)
    ensures
        r == forced_by(input@),
{
    match read_json(input) {
        None => Err(ForceErrorV2::InvalidJson),
        Some(reading) => match reading.members {
            None => Err(ForceErrorV2::NotAnObject),
            Some(members) => forced_action(&read_fields(&members)),
        },
    }
}

/// An override that is accepted pins at least one setting, and a pinned stripe
/// is inside the code's bounds and costs at most half of its data.
pub proof fn lemma_accepted_override_is_guarded(fields: Seq<FieldModel>)
    requires
        forced_settings(fields) is Ok,
    ensures
        forced_settings(fields)->Ok_0 != ForcedActionV2::nothing(),
        forced_settings(fields)->Ok_0.fec matches Some(Some(geometry)) ==> geometry.is_valid()
            && 2 * geometry.parity_cells <= geometry.data_cells,
{
    if let Ok(forced) = forced_settings(fields) {
        if let Some(Some(geometry)) = forced.fec {
            crate::fec::lemma_half_overhead_of_valid_stripe(geometry);
        }
    }
}

/// Protection that is switched off is pinned; protection that is not named is
/// left to the tuning.
pub proof fn lemma_protection_off_is_an_override(fields: Seq<FieldModel>)
    requires
        forced_settings(fields) is Ok,
    ensures
        forced_settings(fields)->Ok_0.fec is Some == lookup(fields, "fec"@) is Some,
        lookup(fields, "fec"@) == Some(ValueModel::Null) ==> forced_settings(fields)->Ok_0.fec
            == Some(None::<FecGeometryV2>),
        lookup(fields, "fec"@) == Some(ValueModel::Text("off"@)) ==> forced_settings(
            fields,
        )->Ok_0.fec == Some(None::<FecGeometryV2>),
{
}

} // verus!
