//! The configuration text of the broker, written from the table of its
//! listeners and from the limits that the library holds as constants.

use crate::service::{
    broker_listeners, listener_table, Listener, Transport, CONNECTION_TIMEOUT_MS, LISTEN_HOST,
    MAX_CLIENT_ID_LEN, MAX_PAYLOAD_SIZE,
};
use crate::text::{contains, decimal, occurs_at, push_decimal};
use vstd::prelude::*;
use vstd::string::StringExecFns;

verus! {

/// What the text begins with: the identity of the broker and the settings
/// of its router.
pub const CONFIG_HEAD: &'static str = "\nid = 0\n\n[router]\ninstant_ack = false\n\
    max_segment_size = 104857600\nmax_segment_count = 10\nmax_connections = 1001\n\
    max_outgoing_packet_count = 200\n";

/// The table that holds the settings of a listener of this transport.
pub open spec fn transport_key(transport: Transport) -> Seq<char> {
    match transport {
        Transport::V4 => "v4.1"@,
        Transport::V5 => "v5.1"@,
        Transport::WebSocket => "ws.1"@,
    }
}

/// The name of the listener of this transport.
pub open spec fn transport_name(transport: Transport) -> Seq<char> {
    match transport {
        Transport::V4 => "mqtt-v4-server"@,
        Transport::V5 => "mqtt-tcp-server"@,
        Transport::WebSocket => "mqtt-ws-server"@,
    }
}

/// The settings that a transport has after the limits of a connection.
pub open spec fn transport_before_payload(transport: Transport) -> Seq<char> {
    match transport {
        Transport::WebSocket => "throttle_delay_ms = 0\n"@,
        _ => ""@,
    }
}

/// The settings that a transport has after the limit on what is in flight.
pub open spec fn transport_closing(transport: Transport) -> Seq<char> {
    match transport {
        Transport::V4 => "dynamic_filters = true\n"@,
        Transport::V5 => "max_inflight_size = 1024\ndynamic_filters = true\n"@,
        Transport::WebSocket => "max_inflight_size = 1024\n"@,
    }
}

/// What stands in the section of a listener before its address.
pub open spec fn section_opening(listener: Listener) -> Seq<char> {
    "\n["@ + transport_key(listener.transport) + "]\nname = \""@ + transport_name(
        listener.transport,
    ) + "\"\n"@
}

/// The line that gives the address of a listener.
pub open spec fn listen_line(listener: Listener) -> Seq<char> {
    "listen = \""@ + LISTEN_HOST@ + ":"@ + decimal(listener.port as nat) + "\"\n"@
}

/// What stands in the section of a listener after its address: the delay
/// between connections and the limits of a connection.
pub open spec fn section_limits(listener: Listener) -> Seq<char> {
    "next_connection_delay_ms = 1\n\n["@ + transport_key(listener.transport)
        + ".connections]\nconnection_timeout_ms = "@ + decimal(CONNECTION_TIMEOUT_MS as nat)
        + "\nmax_client_id_len = "@ + decimal(MAX_CLIENT_ID_LEN as nat) + "\n"@
        + transport_before_payload(listener.transport) + "max_payload_size = "@ + decimal(
        MAX_PAYLOAD_SIZE as nat,
    ) + "\nmax_inflight_count = 500\n"@ + transport_closing(listener.transport)
}

/// The section of a listener.
pub open spec fn section_chars(listener: Listener) -> Seq<char> {
    section_opening(listener) + listen_line(listener) + section_limits(listener)
}

/// The sections of these listeners, one after the other.
pub open spec fn sections_chars(listeners: Seq<Listener>) -> Seq<char>
    decreases listeners.len(),
{
    if listeners.len() == 0 {
        Seq::<char>::empty()
    } else {
        sections_chars(listeners.drop_last()) + section_chars(listeners.last())
    }
}

/// The configuration text of the broker: the head, then the section of
/// each listener of the table.
pub open spec fn config_chars() -> Seq<char> {
    CONFIG_HEAD@ + sections_chars(listener_table())
}

/// The table that holds the settings of a listener of this transport.
pub fn key_of(transport: Transport) -> (key: &'static str)
    ensures
        key@ == transport_key(transport),
{
    match transport {
        Transport::V4 => "v4.1",
        Transport::V5 => "v5.1",
        Transport::WebSocket => "ws.1",
    }
}

/// The name of the listener of this transport.
pub fn name_of(transport: Transport) -> (name: &'static str)
    ensures
        name@ == transport_name(transport),
{
    match transport {
        Transport::V4 => "mqtt-v4-server",
        Transport::V5 => "mqtt-tcp-server",
        Transport::WebSocket => "mqtt-ws-server",
    }
}

/// Appends the line that gives the address of `listener`.
pub fn push_listen_line(text: &mut String, listener: &Listener)
    ensures
        final(text)@ == old(text)@ + listen_line(*listener),
{
    text.append("listen = \"");
    text.append(LISTEN_HOST);
    text.append(":");
    push_decimal(text, listener.port as u128);
    text.append("\"\n");
    assert(text@ =~= old(text)@ + listen_line(*listener));
}

/// Appends what stands in the section of `listener` after its address.
fn push_limits(text: &mut String, listener: &Listener)
    ensures
        final(text)@ == old(text)@ + section_limits(*listener),
{
    text.append("next_connection_delay_ms = 1\n\n[");
    text.append(key_of(listener.transport));
    text.append(".connections]\nconnection_timeout_ms = ");
    push_decimal(text, CONNECTION_TIMEOUT_MS as u128);
    text.append("\nmax_client_id_len = ");
    push_decimal(text, MAX_CLIENT_ID_LEN as u128);
    text.append("\n");
    text.append(
        match listener.transport {
            Transport::WebSocket => "throttle_delay_ms = 0\n",
            _ => "",
        },
    );
    text.append("max_payload_size = ");
    push_decimal(text, MAX_PAYLOAD_SIZE as u128);
    text.append("\nmax_inflight_count = 500\n");
    text.append(
        match listener.transport {
            Transport::V4 => "dynamic_filters = true\n",
            Transport::V5 => "max_inflight_size = 1024\ndynamic_filters = true\n",
            Transport::WebSocket => "max_inflight_size = 1024\n",
        },
    );
    assert(text@ =~= old(text)@ + section_limits(*listener));
}

/// Appends the section of `listener`.
pub fn push_section(text: &mut String, listener: &Listener)
    ensures
        final(text)@ == old(text)@ + section_chars(*listener),
{
    text.append("\n[");
    text.append(key_of(listener.transport));
    text.append("]\nname = \"");
    text.append(name_of(listener.transport));
    text.append("\"\n");
    assert(text@ =~= old(text)@ + section_opening(*listener));
    push_listen_line(text, listener);
    push_limits(text, listener);
    assert(text@ =~= old(text)@ + section_chars(*listener));
}

/// The configuration text of the broker.
pub fn broker_config_text() -> (text: String)
    ensures
        text@ == config_chars(),
{
    let listeners = broker_listeners();
    let mut text = String::from_str(CONFIG_HEAD);
    let mut i: usize = 0;
    assert(listeners@.take(0) =~= Seq::<Listener>::empty());
    while i < listeners.len()
        invariant
            i <= listeners.len(),
            listeners@ == listener_table(),
            text@ == CONFIG_HEAD@ + sections_chars(listeners@.take(i as int)),
        decreases listeners.len() - i,
    {
        push_section(&mut text, &listeners[i]);
        proof {
            let next = listeners@.take(i + 1);
            assert(next.drop_last() =~= listeners@.take(i as int));
            assert(next.last() == listeners@[i as int]);
        }
        i += 1;
    }
    assert(listeners@.take(i as int) =~= listeners@);
    text
}

/// A text stands in whatever is put together around it.
pub proof fn lemma_occurs_between(before: Seq<char>, needle: Seq<char>, after: Seq<char>)
    ensures
        occurs_at(before + needle + after, needle, before.len() as int),
        contains(before + needle + after, needle),
{
    let hay = before + needle + after;
    assert(hay.subrange(before.len() as int, (before.len() + needle.len()) as int) =~= needle);
}

/// The sections of some listeners hold the address line of each of them.
pub proof fn lemma_sections_hold_listen_line(listeners: Seq<Listener>, i: int)
    requires
        0 <= i < listeners.len(),
    ensures
        exists|before: Seq<char>, after: Seq<char>|
            sections_chars(listeners) == before + listen_line(listeners[i]) + after,
    decreases listeners.len(),
{
    let line = listen_line(listeners[i]);
    let earlier = sections_chars(listeners.drop_last());
    let last = listeners.last();
    if i == listeners.len() - 1 {
        let before = earlier + section_opening(last);
        let after = section_limits(last);
        assert(sections_chars(listeners) =~= before + line + after);
    } else {
        lemma_sections_hold_listen_line(listeners.drop_last(), i);
        let (b, a) = choose|b: Seq<char>, a: Seq<char>|
            sections_chars(listeners.drop_last()) == b + listen_line(listeners.drop_last()[i]) + a;
        let after = a + section_chars(last);
        assert(sections_chars(listeners) =~= b + line + after);
    }
}

/// The configuration text and the table of listeners agree: the text gives
/// the address of every listener of the table, host and port.
pub proof fn lemma_config_names_every_listener(i: int)
    requires
        0 <= i < listener_table().len(),
    ensures
        contains(config_chars(), listen_line(listener_table()[i])),
{
    let table = listener_table();
    let line = listen_line(table[i]);
    lemma_sections_hold_listen_line(table, i);
    let (b, a) = choose|b: Seq<char>, a: Seq<char>| sections_chars(table) == b + line + a;
    let before = CONFIG_HEAD@ + b;
    assert(config_chars() =~= before + line + a);
    lemma_occurs_between(before, line, a);
}

} // verus!
