//! What encoding and decoding promise together: a message sent over the RPC
//! transport arrives as the same message, and a complete wire message that a
//! node can decode is the encoding of what it decodes to.
use vstd::prelude::*;
use crate::paxos::{
    SpecStoreCommand, SpecSyncItem, SpecStopSign, SpecPaxosMsg, SpecMessage, BLEMessage,
};
use crate::proto::{
    SpecStoreCommandObj, SpecSyncItemInum, SpecSyncItemObj, SpecStopSignObj, SpecPsgMsg, SpecPsg,
    BleMessageObj,
};
use crate::encode::{
    encode_command, encode_commands, encode_sync_item, encode_stop_sign, encode_paxos_msg,
    encode_message, encode_ble_message,
};
use crate::decode::{
    complete_sync_item, complete_psg_msg, complete_psg, complete_ble_message, decode_command,
    decode_commands, decode_sync_item, decode_stop_sign, decode_paxos_msg, decode_message,
    decode_ble_message,
};

verus! {

// ---------------------------------------------------------------------------
// Which wire values decode without loss
// ---------------------------------------------------------------------------

/// Wire commands whose identifiers fit in a machine word.
pub open spec fn ids_fit(s: Seq<SpecStoreCommandObj>) -> bool {
    forall|i: int| 0 <= i < s.len() ==> #[trigger] s[i].id <= usize::MAX
}

/// A wire sync item whose commands' identifiers fit in a machine word.
pub open spec fn lossless_sync_item(s: SpecSyncItemObj) -> bool {
    s.inum matches Some(SpecSyncItemInum::E(v)) ==> ids_fit(v)
}

/// A wire stop sign whose metadata numbers are all bytes.
pub open spec fn lossless_stop_sign(s: SpecStopSignObj) -> bool {
    s.metadata matches Some(m) ==> forall|i: int| 0 <= i < m.len() ==> #[trigger] m[i] <= 255
}

/// An optional wire stop sign that is absent or lossless.
pub open spec fn lossless_opt_stop_sign(s: Option<SpecStopSignObj>) -> bool {
    s matches Some(ss) ==> lossless_stop_sign(ss)
}

/// A wire sequence-paxos body in which every identifier fits in a machine word
/// and every metadata number is a byte.
pub open spec fn lossless_psg_msg(m: SpecPsgMsg) -> bool {
    match m {
        SpecPsgMsg::Promise(p) => {
            &&& (p.sync_item matches Some(s) ==> lossless_sync_item(s))
            &&& lossless_opt_stop_sign(p.stop_sign)
        },
        SpecPsgMsg::AcceptSync(a) => {
            &&& (a.sync_item matches Some(s) ==> lossless_sync_item(s))
            &&& lossless_opt_stop_sign(a.stop_sign)
        },
        SpecPsgMsg::FirstAccept(f) => ids_fit(f.e),
        SpecPsgMsg::AcceptDecide(a) => ids_fit(a.e),
        SpecPsgMsg::Proposalforward(v) => ids_fit(v),
        SpecPsgMsg::AcceptStopSign(a) => lossless_opt_stop_sign(a.ss),
        _ => true,
    }
}

/// A wire sequence-paxos message whose body is lossless.
pub open spec fn lossless_psg(o: SpecPsg) -> bool {
    o.msg matches Some(m) ==> lossless_psg_msg(m)
}

// ---------------------------------------------------------------------------
// Commands
// ---------------------------------------------------------------------------

/// A store command survives the trip to the wire and back.
pub proof fn lemma_command_roundtrip(c: SpecStoreCommand)
    ensures
        decode_command(encode_command(c)) == c,
{
}

/// A wire command whose identifier fits in a machine word survives the trip to
/// a store command and back.
pub proof fn lemma_command_obj_roundtrip(o: SpecStoreCommandObj)
    requires
        o.id <= usize::MAX,
    ensures
        encode_command(decode_command(o)) == o,
{
}

/// A sequence of commands, such as forwarded proposals, survives the trip to the
/// wire and back, in the same order.
pub proof fn lemma_commands_roundtrip(s: Seq<SpecStoreCommand>)
    ensures
        decode_commands(encode_commands(s)) == s,
{
    assert(decode_commands(encode_commands(s)) =~= s);
}

/// A sequence of wire commands whose identifiers fit in a machine word survives
/// the trip to store commands and back.
pub proof fn lemma_command_objs_roundtrip(s: Seq<SpecStoreCommandObj>)
    requires
        ids_fit(s),
    ensures
        encode_commands(decode_commands(s)) == s,
{
    assert forall|i: int| 0 <= i < s.len() implies encode_commands(decode_commands(s))[i]
        == s[i] by {
        lemma_command_obj_roundtrip(s[i]);
    }
    assert(encode_commands(decode_commands(s)) =~= s);
}

// ---------------------------------------------------------------------------
// Sync items and stop signs
// ---------------------------------------------------------------------------

proof fn lemma_sync_item_roundtrip(s: SpecSyncItem)
    ensures
        complete_sync_item(encode_sync_item(s)),
        decode_sync_item(encode_sync_item(s)) == s,
{
    if let SpecSyncItem::Entries(v) = s {
        lemma_commands_roundtrip(v);
    }
}

proof fn lemma_sync_item_obj_roundtrip(s: SpecSyncItemObj)
    requires
        complete_sync_item(s),
        lossless_sync_item(s),
    ensures
        encode_sync_item(decode_sync_item(s)) == s,
{
    if let Some(SpecSyncItemInum::E(v)) = s.inum {
        lemma_command_objs_roundtrip(v);
    }
}

proof fn lemma_stop_sign_roundtrip(s: SpecStopSign)
    ensures
        decode_stop_sign(encode_stop_sign(s)) == s,
{
    if let Some(m) = s.metadata {
        assert(m.map_values(|b: u8| b as u32).map_values(|x: u32| x as u8) =~= m);
    }
}

proof fn lemma_stop_sign_obj_roundtrip(s: SpecStopSignObj)
    requires
        lossless_stop_sign(s),
    ensures
        encode_stop_sign(decode_stop_sign(s)) == s,
{
    if let Some(m) = s.metadata {
        assert(m.map_values(|x: u32| x as u8).map_values(|b: u8| b as u32) =~= m);
    }
}

// ---------------------------------------------------------------------------
// Sequence-paxos messages
// ---------------------------------------------------------------------------

proof fn lemma_paxos_msg_roundtrip(m: SpecPaxosMsg)
    ensures
        complete_psg_msg(encode_paxos_msg(m)),
        decode_paxos_msg(encode_paxos_msg(m)) == m,
{
    match m {
        SpecPaxosMsg::Promise(p) => {
            if let Some(s) = p.sync_item {
                lemma_sync_item_roundtrip(s);
            }
            if let Some(ss) = p.stopsign {
                lemma_stop_sign_roundtrip(ss);
            }
        },
        SpecPaxosMsg::AcceptSync(a) => {
            lemma_sync_item_roundtrip(a.sync_item);
            if let Some(ss) = a.stopsign {
                lemma_stop_sign_roundtrip(ss);
            }
        },
        SpecPaxosMsg::FirstAccept(f) => lemma_commands_roundtrip(f.entries),
        SpecPaxosMsg::AcceptDecide(a) => lemma_commands_roundtrip(a.entries),
        SpecPaxosMsg::ProposalForward(v) => lemma_commands_roundtrip(v),
        SpecPaxosMsg::AcceptStopSign(a) => lemma_stop_sign_roundtrip(a.ss),
        _ => {},
    }
}

proof fn lemma_psg_msg_roundtrip(m: SpecPsgMsg)
    requires
        complete_psg_msg(m),
        lossless_psg_msg(m),
    ensures
        encode_paxos_msg(decode_paxos_msg(m)) == m,
{
    match m {
        SpecPsgMsg::Promise(p) => {
            if let Some(s) = p.sync_item {
                lemma_sync_item_obj_roundtrip(s);
            }
            if let Some(ss) = p.stop_sign {
                lemma_stop_sign_obj_roundtrip(ss);
            }
        },
        SpecPsgMsg::AcceptSync(a) => {
            lemma_sync_item_obj_roundtrip(a.sync_item.unwrap());
            if let Some(ss) = a.stop_sign {
                lemma_stop_sign_obj_roundtrip(ss);
            }
        },
        SpecPsgMsg::FirstAccept(f) => lemma_command_objs_roundtrip(f.e),
        SpecPsgMsg::AcceptDecide(a) => lemma_command_objs_roundtrip(a.e),
        SpecPsgMsg::Proposalforward(v) => lemma_command_objs_roundtrip(v),
        SpecPsgMsg::AcceptStopSign(a) => lemma_stop_sign_obj_roundtrip(a.ss.unwrap()),
        _ => {},
    }
}

/// Every sequence-paxos message has a complete wire form, and decoding that wire
/// form gives back the message: what one node sends, the other receives.
pub proof fn lemma_message_roundtrip(m: SpecMessage)
    ensures
        complete_psg(encode_message(m)),
        decode_message(encode_message(m)) == m,
{
    lemma_paxos_msg_roundtrip(m.msg);
}

/// A complete wire sequence-paxos message whose identifiers fit in a machine word
/// and whose metadata numbers are bytes is the wire form of the message it decodes to.
pub proof fn lemma_psg_roundtrip(o: SpecPsg)
    requires
        complete_psg(o),
        lossless_psg(o),
    ensures
        encode_message(decode_message(o)) == o,
{
    lemma_psg_msg_roundtrip(o.msg.unwrap());
}

/// Distinct sequence-paxos messages have distinct wire forms.
pub proof fn lemma_message_encoding_injective(m1: SpecMessage, m2: SpecMessage)
    requires
        encode_message(m1) == encode_message(m2),
    ensures
        m1 == m2,
{
    lemma_message_roundtrip(m1);
    lemma_message_roundtrip(m2);
}

// ---------------------------------------------------------------------------
// Leader-election messages
// ---------------------------------------------------------------------------

/// Every leader-election message has a complete wire form, and decoding that wire
/// form gives back the message.
pub proof fn lemma_ble_message_roundtrip(m: BLEMessage)
    ensures
        complete_ble_message(encode_ble_message(m)),
        decode_ble_message(encode_ble_message(m)) == m,
{
}

/// A complete wire leader-election message is the wire form of the message it decodes to.
pub proof fn lemma_ble_message_obj_roundtrip(o: BleMessageObj)
    requires
        complete_ble_message(o),
    ensures
        encode_ble_message(decode_ble_message(o)) == o,
{
}

/// Distinct leader-election messages have distinct wire forms.
pub proof fn lemma_ble_encoding_injective(m1: BLEMessage, m2: BLEMessage)
    requires
        encode_ble_message(m1) == encode_ble_message(m2),
    ensures
        m1 == m2,
{
    lemma_ble_message_roundtrip(m1);
    lemma_ble_message_roundtrip(m2);
}

} // verus!
