//! Raft admin commands and the messages that carry them to the local
//! Raft state machine.

use vstd::prelude::*;
use crate::meta::{Peer, Region, RegionEpoch, RegionView};

verus! {

/// How a membership change alters the region.
#[derive(Clone, Copy, Debug, PartialEq, Eq, Structural)]
pub enum ConfChangeType {
    AddNode,
    RemoveNode,
    AddLearnerNode,
}

/// Tag of an admin command.
#[derive(Clone, Copy, Debug, PartialEq, Eq, Structural)]
pub enum AdminCmdType {
    ChangePeer,
    Split,
    TransferLeader,
}

/// A Raft command on a region's membership, range or leadership.
#[derive(Clone, Debug, PartialEq, Eq)]
pub enum AdminRequest {
    ChangePeer { change_type: ConfChangeType, peer: Peer },
    Split { split_key: Vec<u8>, new_region_id: u64, new_peer_ids: Vec<u64>, right_derive: bool },
    TransferLeader { peer: Peer },
}

/// What an `AdminRequest` stands for.
pub enum AdminRequestView {
    ChangePeer { change_type: ConfChangeType, peer: Peer },
    Split { split_key: Seq<u8>, new_region_id: u64, new_peer_ids: Seq<u64>, right_derive: bool },
    TransferLeader { peer: Peer },
}

impl View for AdminRequest {
    type V = AdminRequestView;

    open spec fn view(&self) -> AdminRequestView {
        match *self {
            AdminRequest::ChangePeer { change_type, peer } => AdminRequestView::ChangePeer {
                change_type,
                peer,
            },
            AdminRequest::Split { split_key, new_region_id, new_peer_ids, right_derive } => {
                AdminRequestView::Split {
                    split_key: split_key@,
                    new_region_id,
                    new_peer_ids: new_peer_ids@,
                    right_derive,
                }
            },
            AdminRequest::TransferLeader { peer } => AdminRequestView::TransferLeader { peer },
        }
    }
}

impl AdminRequestView {
    /// The tag of the command.
    pub open spec fn cmd_type(self) -> AdminCmdType {
        match self {
            AdminRequestView::ChangePeer { .. } => AdminCmdType::ChangePeer,
            AdminRequestView::Split { .. } => AdminCmdType::Split,
            AdminRequestView::TransferLeader { .. } => AdminCmdType::TransferLeader,
        }
    }
}

impl AdminRequest {
    /// The tag of the command.
    pub fn get_cmd_type(&self) -> (tag: AdminCmdType)
        ensures
            tag == self@.cmd_type(),
    {
        match self {
            AdminRequest::ChangePeer { .. } => AdminCmdType::ChangePeer,
            AdminRequest::Split { .. } => AdminCmdType::Split,
            AdminRequest::TransferLeader { .. } => AdminCmdType::TransferLeader,
        }
    }
}

/// Builds the command that changes a region's membership.
pub fn new_change_peer_request(change_type: ConfChangeType, peer: Peer) -> (req: AdminRequest)
    ensures
        req@ == (AdminRequestView::ChangePeer { change_type, peer }),
{
    AdminRequest::ChangePeer { change_type, peer }
}

/// Builds the command that splits a region at `split_key`.
pub fn new_split_region_request(
    split_key: Vec<u8>,
    new_region_id: u64,
    peer_ids: Vec<u64>,
    right_derive: bool,
) -> (req: AdminRequest)
    ensures
        req@ == (AdminRequestView::Split {
            split_key: split_key@,
            new_region_id,
            new_peer_ids: peer_ids@,
            right_derive,
        }),
{
    AdminRequest::Split { split_key, new_region_id, new_peer_ids: peer_ids, right_derive }
}

/// Builds the command that hands leadership to `peer`.
pub fn new_transfer_leader_request(peer: Peer) -> (req: AdminRequest)
    ensures
        req@ == (AdminRequestView::TransferLeader { peer }),
{
    AdminRequest::TransferLeader { peer }
}

/// Addresses a command: the region, the epoch it was issued for and the
/// peer that is to propose it.
#[derive(Clone, Copy, Debug, PartialEq, Eq, Structural)]
pub struct RaftRequestHeader {
    pub region_id: u64,
    pub region_epoch: RegionEpoch,
    pub peer: Peer,
}

/// An admin command with its header.
#[derive(Clone, Debug, PartialEq, Eq)]
pub struct RaftCmdRequest {
    pub header: RaftRequestHeader,
    pub admin_request: AdminRequest,
}

/// What a `RaftCmdRequest` stands for.
pub struct RaftCmdRequestView {
    pub header: RaftRequestHeader,
    pub admin_request: AdminRequestView,
}

impl View for RaftCmdRequest {
    type V = RaftCmdRequestView;

    open spec fn view(&self) -> RaftCmdRequestView {
        RaftCmdRequestView { header: self.header, admin_request: self.admin_request@ }
    }
}

/// A message between peers of a region. The worker only ever builds the
/// tombstone, which tells a peer to destroy itself.
#[derive(Clone, Copy, Debug, PartialEq, Eq, Structural)]
pub struct RaftMessage {
    pub region_id: u64,
    pub from_peer: Peer,
    pub to_peer: Peer,
    pub region_epoch: RegionEpoch,
    pub is_tombstone: bool,
}

/// What the worker puts on the channel to the Raft state machine.
/// `C` is the completion callback that travels with a command.
#[derive(Clone, Debug, PartialEq, Eq)]
pub enum Msg<C> {
    RaftCmd { request: RaftCmdRequest, callback: Option<C> },
    RaftMessage(RaftMessage),
}

/// What a `Msg` stands for.
pub enum MsgView<C> {
    RaftCmd { request: RaftCmdRequestView, callback: Option<C> },
    RaftMessage(RaftMessage),
}

impl<C> View for Msg<C> {
    type V = MsgView<C>;

    open spec fn view(&self) -> MsgView<C> {
        match *self {
            Msg::RaftCmd { request, callback } => MsgView::RaftCmd { request: request@, callback },
            Msg::RaftMessage(message) => MsgView::RaftMessage(message),
        }
    }
}

/// The message that carries `request` for `region_id` at `epoch` to `peer`.
pub open spec fn admin_msg<C>(
    region_id: u64,
    epoch: RegionEpoch,
    peer: Peer,
    request: AdminRequestView,
    callback: Option<C>,
) -> MsgView<C> {
    MsgView::RaftCmd {
        request: RaftCmdRequestView {
            header: RaftRequestHeader { region_id, region_epoch: epoch, peer },
            admin_request: request,
        },
        callback,
    }
}

/// The tombstone for `peer` of `region_id`, at the epoch the director knows.
pub open spec fn tombstone(region_id: u64, peer: Peer, epoch: RegionEpoch) -> RaftMessage {
    RaftMessage { region_id, from_peer: peer, to_peer: peer, region_epoch: epoch, is_tombstone: true }
}

/// Wraps an admin command in its header, ready for the channel.
pub fn new_admin_msg<C>(
    region_id: u64,
    epoch: RegionEpoch,
    peer: Peer,
    request: AdminRequest,
    callback: Option<C>,
) -> (msg: Msg<C>)
    ensures
        msg@ == admin_msg(region_id, epoch, peer, request@, callback),
{
    let header = RaftRequestHeader { region_id, region_epoch: epoch, peer };
    Msg::RaftCmd { request: RaftCmdRequest { header, admin_request: request }, callback }
}

/// Builds the message that destroys the stale `peer` of `local_region`. It
/// carries the epoch of `pd_region`, the region as the director knows it.
pub fn new_destroy_peer_msg<C>(local_region: &Region, peer: Peer, pd_region: &Region) -> (msg: Msg<C>)
    ensures
        msg@ == MsgView::<C>::RaftMessage(
            tombstone(local_region@.id, peer, pd_region@.region_epoch),
        ),
{
    Msg::RaftMessage(
        RaftMessage {
            region_id: local_region.id,
            from_peer: peer,
            to_peer: peer,
            region_epoch: pd_region.region_epoch,
            is_tombstone: true,
        },
    )
}

} // verus!
