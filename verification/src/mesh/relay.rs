//! Which adjacency a control record goes to.

use vstd::prelude::*;

use crate::routing::{
    label_lookup, AdjacencyIdV2, LabelActionV2, LabelTableV2, RouteLabelV2,
};

verus! {

/// Why a control record cannot be handled.
#[derive(Clone, Copy, Debug, PartialEq, Eq, Structural)]
pub enum RelayErrorV2 {
    /// Zero names no label.
    ZeroLabel,
    /// The label is not forwarded to the adjacency that reported.
    NoReverseAction,
    /// The reported datagram is larger than the wire can say.
    ObservedSize,
    /// The reported limit is larger than the wire can say.
    MaximumSize,
}

/// The adjacency from which Cells of a label come that leave through another.
pub open spec fn reverse_adjacency(
    action: Option<LabelActionV2>,
    outgoing: AdjacencyIdV2,
) -> Option<AdjacencyIdV2> {
    match action {
        Some(LabelActionV2::Forward { expected_ingress, next_hop }) => if next_hop == outgoing {
            Some(expected_ingress)
        } else {
            None
        },
        _ => None,
    }
}

/// The adjacency from which Cells of a label come that leave through
/// `outgoing`.
pub fn header_incoming_adjacency(
    route_label: u32,
    route_epoch: u32,
    outgoing: AdjacencyIdV2,
    labels: &LabelTableV2,
) -> (r: Result<AdjacencyIdV2, RelayErrorV2>)
    ensures
        r == if route_label == 0 {
            Err::<AdjacencyIdV2, RelayErrorV2>(RelayErrorV2::ZeroLabel)
        } else {
            match reverse_adjacency(
                label_lookup(labels.labels@, route_epoch, RouteLabelV2(route_label)),
                outgoing,
            ) {
                Some(incoming) => Ok(incoming),
                None => Err(RelayErrorV2::NoReverseAction),
            }
        },
{
    let label: RouteLabelV2 = match RouteLabelV2::new(route_label) {
        Ok(label) => label,
        Err(_) => return Err(RelayErrorV2::ZeroLabel),
    };
    match labels.label_action(route_epoch, label) {
        Some(LabelActionV2::Forward { expected_ingress, next_hop }) => {
            if next_hop == outgoing {
                Ok(expected_ingress)
            } else {
                Err(RelayErrorV2::NoReverseAction)
            }
        },
        _ => Err(RelayErrorV2::NoReverseAction),
    }
}

/// What a forwarded Cell says of itself.
#[derive(Clone, Copy, Debug, PartialEq, Eq, Structural)]
pub struct CellHeaderV2 {
    pub session_epoch: u32,
    pub route_label: u32,
    pub train_id: u64,
    pub cell_sequence: u16,
}

/// A report that a forwarded Cell is too large for the next adjacency.
#[derive(Clone, Copy, Debug)]
pub struct OamPathMtuExceededV2 {
    pub snapshot_generation: u64,
    pub route_epoch: u32,
    pub route_label: RouteLabelV2,
    pub train_id: u64,
    pub cell_sequence: u16,
    pub observed_datagram_size: u16,
    pub maximum_datagram_size: u16,
    pub incoming: AdjacencyIdV2,
    pub reporter: [u8; 32],
}

/// Why a report cannot be made.
pub open spec fn report_error(
    header: CellHeaderV2,
    observed: usize,
    maximum: usize,
    outgoing: AdjacencyIdV2,
    labels: LabelTableV2,
) -> Option<RelayErrorV2> {
    if observed > u16::MAX {
        Some(RelayErrorV2::ObservedSize)
    } else if maximum > u16::MAX {
        Some(RelayErrorV2::MaximumSize)
    } else if header.route_label == 0 {
        Some(RelayErrorV2::ZeroLabel)
    } else if reverse_adjacency(
        label_lookup(labels.labels@, header.session_epoch, RouteLabelV2(header.route_label)),
        outgoing,
    ) is None {
        Some(RelayErrorV2::NoReverseAction)
    } else {
        None
    }
}

/// The report for a forwarded Cell that is too large for the adjacency it
/// should leave through. It goes back to where the Cell came from.
pub fn path_mtu_report(
    header: CellHeaderV2,
    observed: usize,
    maximum: usize,
    outgoing: AdjacencyIdV2,
    labels: &LabelTableV2,
    reporter: [u8; 32],
) -> (r: Result<OamPathMtuExceededV2, RelayErrorV2>)
    ensures
        match report_error(header, observed, maximum, outgoing, *labels) {
            Some(error) => r == Err::<OamPathMtuExceededV2, RelayErrorV2>(error),
            None => r matches Ok(oam) && oam.snapshot_generation == labels.generation
                && oam.route_epoch == header.session_epoch && oam.route_label == RouteLabelV2(
                header.route_label,
            ) && oam.train_id == header.train_id && oam.cell_sequence == header.cell_sequence
                && oam.observed_datagram_size == observed && oam.maximum_datagram_size == maximum
                && reverse_adjacency(
                label_lookup(labels.labels@, header.session_epoch, RouteLabelV2(header.route_label)),
                outgoing,
            ) == Some(oam.incoming) && oam.reporter == reporter,
        },
{
    if observed > u16::MAX as usize {
        return Err(RelayErrorV2::ObservedSize);
    }
    if maximum > u16::MAX as usize {
        return Err(RelayErrorV2::MaximumSize);
    }
    let incoming: AdjacencyIdV2 = match header_incoming_adjacency(
        header.route_label,
        header.session_epoch,
        outgoing,
        labels,
    ) {
        Ok(incoming) => incoming,
        Err(error) => return Err(error),
    };
    Ok(
        OamPathMtuExceededV2 {
            snapshot_generation: labels.generation,
            route_epoch: header.session_epoch,
            route_label: RouteLabelV2(header.route_label),
            train_id: header.train_id,
            cell_sequence: header.cell_sequence,
            observed_datagram_size: observed as u16,
            maximum_datagram_size: maximum as u16,
            incoming,
            reporter,
        },
    )
}

/// Where a report about a label travels on: to where the label's Cells come
/// from, if it came from where they go. `None` means that it ends here.
pub fn relay_oam_reverse(
    route_epoch: u32,
    route_label: RouteLabelV2,
    incoming: AdjacencyIdV2,
    labels: &LabelTableV2,
) -> (r: Option<AdjacencyIdV2>)
    ensures
        r == reverse_adjacency(label_lookup(labels.labels@, route_epoch, route_label), incoming),
{
    match labels.label_action(route_epoch, route_label) {
        Some(LabelActionV2::Forward { expected_ingress, next_hop }) => {
            if incoming == next_hop {
                Some(expected_ingress)
            } else {
                None
            }
        },
        _ => None,
    }
}

/// What to do with a request to repair a train.
#[derive(Clone, Copy, Debug, PartialEq, Eq, Structural)]
pub enum RepairRequestActionV2 {
    /// Pass it on towards the source.
    Relay(AdjacencyIdV2),
    /// Answer it: the train started here.
    Respond(AdjacencyIdV2),
    /// Drop it: it came from the wrong side.
    Misdirected,
}

/// What to do with a request to repair a train.
pub open spec fn request_action(action: Option<LabelActionV2>, incoming: AdjacencyIdV2) ->
    RepairRequestActionV2 {
    match action {
        None => RepairRequestActionV2::Respond(incoming),
        Some(_) => match reverse_adjacency(action, incoming) {
            Some(ingress) => RepairRequestActionV2::Relay(ingress),
            None => RepairRequestActionV2::Misdirected,
        },
    }
}

/// What to do with a request to repair a train: a transit node passes it on
/// against the direction of the label, the source answers it.
pub fn repair_request_action(
    route_epoch: u32,
    route_label: u32,
    incoming: AdjacencyIdV2,
    labels: &LabelTableV2,
) -> (r: Result<RepairRequestActionV2, RelayErrorV2>)
    ensures
        r == if route_label == 0 {
            Err::<RepairRequestActionV2, RelayErrorV2>(RelayErrorV2::ZeroLabel)
        } else {
            Ok(
                request_action(
                    label_lookup(labels.labels@, route_epoch, RouteLabelV2(route_label)),
                    incoming,
                ),
            )
        },
{
    let label: RouteLabelV2 = match RouteLabelV2::new(route_label) {
        Ok(label) => label,
        Err(_) => return Err(RelayErrorV2::ZeroLabel),
    };
    Ok(
        match labels.label_action(route_epoch, label) {
            Some(LabelActionV2::Forward { expected_ingress, next_hop }) => if incoming == next_hop {
                RepairRequestActionV2::Relay(expected_ingress)
            } else {
                RepairRequestActionV2::Misdirected
            },
            None => RepairRequestActionV2::Respond(incoming),
            _ => RepairRequestActionV2::Misdirected,
        },
    )
}

/// What to do with an answer to a repair request.
#[derive(Clone, Copy, Debug, PartialEq, Eq, Structural)]
pub enum RepairResponseActionV2 {
    /// Pass it on towards the receiver.
    Relay(AdjacencyIdV2),
    /// Hand it to the local receiver.
    Deliver,
    /// Drop it: it came from the wrong side.
    Misdirected,
}

/// What to do with an answer to a repair request.
pub open spec fn response_action(action: Option<LabelActionV2>, incoming: AdjacencyIdV2) ->
    RepairResponseActionV2 {
    match action {
        Some(LabelActionV2::Forward { expected_ingress, next_hop }) => if incoming
            == expected_ingress {
            RepairResponseActionV2::Relay(next_hop)
        } else {
            RepairResponseActionV2::Misdirected
        },
        Some(LabelActionV2::Local { expected_ingress }) => if incoming == expected_ingress {
            RepairResponseActionV2::Deliver
        } else {
            RepairResponseActionV2::Misdirected
        },
        None => RepairResponseActionV2::Misdirected,
    }
}

/// What to do with an answer to a repair request: it travels with the label, as
/// the Cells did, and only from where they come.
pub fn repair_response_action(
    route_epoch: u32,
    route_label: u32,
    incoming: AdjacencyIdV2,
    labels: &LabelTableV2,
) -> (r: Result<RepairResponseActionV2, RelayErrorV2>)
    ensures
        r == if route_label == 0 {
            Err::<RepairResponseActionV2, RelayErrorV2>(RelayErrorV2::ZeroLabel)
        } else {
            Ok(
                response_action(
                    label_lookup(labels.labels@, route_epoch, RouteLabelV2(route_label)),
                    incoming,
                ),
            )
        },
{
    let label: RouteLabelV2 = match RouteLabelV2::new(route_label) {
        Ok(label) => label,
        Err(_) => return Err(RelayErrorV2::ZeroLabel),
    };
    Ok(
        match labels.label_action(route_epoch, label) {
            Some(LabelActionV2::Forward { expected_ingress, next_hop }) => if incoming
                == expected_ingress {
                RepairResponseActionV2::Relay(next_hop)
            } else {
                RepairResponseActionV2::Misdirected
            },
            Some(LabelActionV2::Local { expected_ingress }) => if incoming == expected_ingress {
                RepairResponseActionV2::Deliver
            } else {
                RepairResponseActionV2::Misdirected
            },
            None => RepairResponseActionV2::Misdirected,
        },
    )
}

/// At a transit node a repair request and its answer take opposite directions:
/// the answer comes in where the request went out, and leaves where it came in.
pub proof fn lemma_repair_answer_retraces_the_request(
    action: Option<LabelActionV2>,
    incoming: AdjacencyIdV2,
    towards_source: AdjacencyIdV2,
)
    requires
        request_action(action, incoming) == RepairRequestActionV2::Relay(towards_source),
    ensures
        response_action(action, towards_source) == RepairResponseActionV2::Relay(incoming),
{
}

/// A report never leaves through the adjacency by which it came, unless the
/// label itself turns around there.
pub proof fn lemma_reports_do_not_bounce(
    expected_ingress: AdjacencyIdV2,
    next_hop: AdjacencyIdV2,
    incoming: AdjacencyIdV2,
)
    requires
        expected_ingress != next_hop,
    ensures
        reverse_adjacency(
            Some(LabelActionV2::Forward { expected_ingress, next_hop }),
            incoming,
        ) != Some(incoming),
{
}

} // verus!
