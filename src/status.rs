use vstd::prelude::*;

verus! {

/// A telemetry quantity held in a linear-format register.
#[derive(Clone, Copy, Debug, PartialEq, Eq, Structural)]
pub enum Quantity {
    InputVoltage,
    InputCurrent,
    InputPower,
    RailVoltage,
    RailCurrent,
    RailPower,
    PageCurrent,
    PagePower,
    PageOcpLimit,
    Temp1,
    Temp2,
    FanSpeed,
}

/// One step of a status run.
#[derive(Clone, Copy, Debug, PartialEq, Eq, Structural)]
pub enum StatusStep {
    /// Read the seven-byte name register (0x9a) and show it as text.
    DeviceName,
    /// Query the version.
    Version,
    /// Query the firmware string.
    Firmware,
    /// Select an output rail.
    SelectRail(u8),
    /// Select a page of the 12 V rail.
    SelectPage(u8),
    /// Read a quantity from the linear-format register at the address.
    Read(Quantity, u8),
    /// Read the uptime register (0xd2).
    Uptime,
    /// Report the input voltage, current and power.
    ReportInput,
    /// Report the voltage, current and power of a rail.
    ReportRail(u8),
    /// Report a page of the 12 V rail, when its power is above zero.
    ReportPage(u8),
    /// Report the uptime, the two temperatures and the fan speed.
    ReportTail,
}

/// The opening steps: the device's identity, then the input side.
pub open spec fn head_steps() -> Seq<StatusStep> {
    seq![
        StatusStep::DeviceName,
        StatusStep::Version,
        StatusStep::Firmware,
        StatusStep::Read(Quantity::InputVoltage, 0x88u8),
        StatusStep::Read(Quantity::InputCurrent, 0x89u8),
        StatusStep::Read(Quantity::InputPower, 0xeeu8),
        StatusStep::ReportInput,
    ]
}

/// The steps for output rail `i`, on page 0.
pub open spec fn rail_steps(i: u8) -> Seq<StatusStep> {
    seq![
        StatusStep::SelectRail(i),
        StatusStep::SelectPage(0u8),
        StatusStep::Read(Quantity::RailVoltage, 0x8bu8),
        StatusStep::Read(Quantity::RailCurrent, 0x8cu8),
        StatusStep::Read(Quantity::RailPower, 0x96u8),
        StatusStep::ReportRail(i),
    ]
}

/// The steps for page `i` of the 12 V rail.
pub open spec fn page_steps(i: u8) -> Seq<StatusStep> {
    seq![
        StatusStep::SelectRail(0u8),
        StatusStep::SelectPage(i),
        StatusStep::Read(Quantity::RailVoltage, 0x8bu8),
        StatusStep::Read(Quantity::PageCurrent, 0xe8u8),
        StatusStep::Read(Quantity::PagePower, 0xe9u8),
        StatusStep::Read(Quantity::PageOcpLimit, 0xeau8),
        StatusStep::ReportPage(i),
    ]
}

/// The closing steps, on rail 0.
pub open spec fn tail_steps() -> Seq<StatusStep> {
    seq![
        StatusStep::SelectRail(0u8),
        StatusStep::Uptime,
        StatusStep::Read(Quantity::Temp1, 0x8eu8),
        StatusStep::Read(Quantity::Temp2, 0x8du8),
        StatusStep::Read(Quantity::FanSpeed, 0x90u8),
        StatusStep::ReportTail,
    ]
}

/// The steps of rails `0..n`, in order.
pub open spec fn rails_steps(n: nat) -> Seq<StatusStep>
    decreases n,
{
    if n == 0 {
        Seq::empty()
    } else {
        rails_steps((n - 1) as nat) + rail_steps((n - 1) as u8)
    }
}

/// The steps of pages `0..n`, in order.
pub open spec fn pages_steps(n: nat) -> Seq<StatusStep>
    decreases n,
{
    if n == 0 {
        Seq::empty()
    } else {
        pages_steps((n - 1) as nat) + page_steps((n - 1) as u8)
    }
}

/// The number of output rails that a status run visits.
pub const RAIL_COUNT: u8 = 3;
/// The number of 12 V pages that a status run visits.
pub const PAGE_COUNT: u8 = 12;

/// The whole status run.
pub open spec fn status_plan_spec() -> Seq<StatusStep> {
    head_steps() + rails_steps(RAIL_COUNT as nat) + pages_steps(PAGE_COUNT as nat) + tail_steps()
}

/// The steps of a status run, in the order they are carried out.
pub fn status_plan() -> (r: Vec<StatusStep>)
    ensures
        r@ == status_plan_spec(),
{
    let mut out: Vec<StatusStep> = Vec::new();
    out.push(StatusStep::DeviceName);
    out.push(StatusStep::Version);
    out.push(StatusStep::Firmware);
    out.push(StatusStep::Read(Quantity::InputVoltage, 0x88));
    out.push(StatusStep::Read(Quantity::InputCurrent, 0x89));
    out.push(StatusStep::Read(Quantity::InputPower, 0xee));
    out.push(StatusStep::ReportInput);
    assert(out@ =~= head_steps() + rails_steps(0));
    let mut i: u8 = 0;
    while i < RAIL_COUNT
        invariant
            i <= RAIL_COUNT,
            out@ == head_steps() + rails_steps(i as nat),
        decreases RAIL_COUNT - i,
    {
        out.push(StatusStep::SelectRail(i));
        out.push(StatusStep::SelectPage(0));
        out.push(StatusStep::Read(Quantity::RailVoltage, 0x8b));
        out.push(StatusStep::Read(Quantity::RailCurrent, 0x8c));
        out.push(StatusStep::Read(Quantity::RailPower, 0x96));
        out.push(StatusStep::ReportRail(i));
        assert(out@ =~= head_steps() + rails_steps((i + 1) as nat));
        i = i + 1;
    }
    let ghost before_pages = out@;
    assert(out@ =~= before_pages + pages_steps(0));
    let mut j: u8 = 0;
    while j < PAGE_COUNT
        invariant
            j <= PAGE_COUNT,
            before_pages == head_steps() + rails_steps(RAIL_COUNT as nat),
            out@ == before_pages + pages_steps(j as nat),
        decreases PAGE_COUNT - j,
    {
        out.push(StatusStep::SelectRail(0));
        out.push(StatusStep::SelectPage(j));
        out.push(StatusStep::Read(Quantity::RailVoltage, 0x8b));
        out.push(StatusStep::Read(Quantity::PageCurrent, 0xe8));
        out.push(StatusStep::Read(Quantity::PagePower, 0xe9));
        out.push(StatusStep::Read(Quantity::PageOcpLimit, 0xea));
        out.push(StatusStep::ReportPage(j));
        assert(out@ =~= before_pages + pages_steps((j + 1) as nat));
        j = j + 1;
    }
    out.push(StatusStep::SelectRail(0));
    out.push(StatusStep::Uptime);
    out.push(StatusStep::Read(Quantity::Temp1, 0x8e));
    out.push(StatusStep::Read(Quantity::Temp2, 0x8d));
    out.push(StatusStep::Read(Quantity::FanSpeed, 0x90));
    out.push(StatusStep::ReportTail);
    assert(out@ =~= status_plan_spec());
    out
}

} // verus!
