//! How a client reaches the broker: its settings and its identity.

use crate::text::{decimal, lemma_decimal_digits, push_decimal};
use vstd::prelude::*;
use vstd::string::StringExecFns;

verus! {

/// The address of the broker.
pub const MQTT_BROKER_HOST: &'static str = "127.0.0.1";

/// The port of the broker.
pub const MQTT_BROKER_PORT: u16 = 31883;

/// The keep-alive interval of a client, in seconds.
pub const MQTT_KEEP_ALIVE_SECS: u64 = 10;

/// How many requests a client queues.
pub const MQTT_QUEUE_CAPACITY: usize = 10;

/// The first part of the identity of the subscriber.
pub const CLIENT_ID_MONITOR: &'static str = "shutdown_monitor";

/// The first part of the identity of a publisher.
pub const CLIENT_ID_SENDER: &'static str = "shutdown_sender";

/// What a client connects with.
#[derive(Debug)]
pub struct ClientSettings {
    /// The identity that the client shows to the broker.
    pub client_id: String,
    /// The address of the broker.
    pub host: &'static str,
    /// The port of the broker.
    pub port: u16,
    /// Whether the broker forgets the session of an earlier connection.
    pub clean_session: bool,
    /// The keep-alive interval, in seconds.
    pub keep_alive_secs: u64,
    /// How many requests the client queues.
    pub queue_capacity: usize,
}

/// The identity of the subscriber in the process `pid`.
pub open spec fn monitor_id(pid: u32) -> Seq<char> {
    CLIENT_ID_MONITOR@ + seq!['_'] + decimal(pid as nat)
}

/// The identity of a publisher in the process `pid` that starts `millis`
/// milliseconds after the epoch.
pub open spec fn sender_id(pid: u32, millis: u128) -> Seq<char> {
    CLIENT_ID_SENDER@ + seq!['_'] + decimal(pid as nat) + seq!['_'] + decimal(millis as nat)
}

/// The identity of the subscriber in the process `pid`.
pub fn monitor_client_id(pid: u32) -> (id: String)
    ensures
        id@ == monitor_id(pid),
{
    proof {
        reveal_strlit("_");
    }
    let mut id = String::from_str(CLIENT_ID_MONITOR);
    id.append("_");
    assert(id@ =~= CLIENT_ID_MONITOR@ + seq!['_']);
    push_decimal(&mut id, pid as u128);
    id
}

/// The identity of a publisher in the process `pid` that starts `millis`
/// milliseconds after the epoch.
pub fn sender_client_id(pid: u32, millis: u128) -> (id: String)
    ensures
        id@ == sender_id(pid, millis),
{
    proof {
        reveal_strlit("_");
    }
    let mut id = String::from_str(CLIENT_ID_SENDER);
    id.append("_");
    assert(id@ =~= CLIENT_ID_SENDER@ + seq!['_']);
    push_decimal(&mut id, pid as u128);
    id.append("_");
    assert(id@ =~= CLIENT_ID_SENDER@ + seq!['_'] + decimal(pid as nat) + seq!['_']);
    push_decimal(&mut id, millis);
    id
}

/// The settings of a client with this identity: the fixed broker address,
/// a session that starts clean, and the fixed keep-alive and queue.
pub fn create_mqtt_client(client_id: &str) -> (settings: ClientSettings)
    ensures
        settings.client_id@ == client_id@,
        settings.host@ == MQTT_BROKER_HOST@,
        settings.port == MQTT_BROKER_PORT,
        settings.clean_session,
        settings.keep_alive_secs == MQTT_KEEP_ALIVE_SECS,
        settings.queue_capacity == MQTT_QUEUE_CAPACITY,
{
    ClientSettings {
        client_id: String::from_str(client_id),
        host: MQTT_BROKER_HOST,
        port: MQTT_BROKER_PORT,
        clean_session: true,
        keep_alive_secs: MQTT_KEEP_ALIVE_SECS,
        queue_capacity: MQTT_QUEUE_CAPACITY,
    }
}

/// Two numbers with the same decimal numeral are the same number.
pub proof fn lemma_decimal_injective(a: nat, b: nat)
    requires
        decimal(a) == decimal(b),
    ensures
        a == b,
{
    lemma_decimal_digits(a);
    lemma_decimal_digits(b);
}

/// Where two numerals, each followed by an underscore and more text, make
/// the same text, the numerals are the same and so is what follows.
pub proof fn lemma_split_at_underscore(a: nat, rest_a: Seq<char>, b: nat, rest_b: Seq<char>)
    requires
        decimal(a) + seq!['_'] + rest_a == decimal(b) + seq!['_'] + rest_b,
    ensures
        a == b,
        rest_a == rest_b,
{
    let da = decimal(a);
    let db = decimal(b);
    let ta = da + seq!['_'] + rest_a;
    let tb = db + seq!['_'] + rest_b;
    lemma_decimal_digits(a);
    lemma_decimal_digits(b);
    if da.len() < db.len() {
        assert(ta[da.len() as int] == '_');
        assert(tb[da.len() as int] == db[da.len() as int]);
        assert(false);
    }
    if db.len() < da.len() {
        assert(tb[db.len() as int] == '_');
        assert(ta[db.len() as int] == da[db.len() as int]);
        assert(false);
    }
    assert(da =~= db) by {
        assert forall|i: int| 0 <= i < da.len() implies da[i] == db[i] by {
            assert(ta[i] == da[i]);
            assert(tb[i] == db[i]);
        }
    }
    lemma_decimal_injective(a, b);
    assert(rest_a =~= rest_b) by {
        assert(rest_a.len() == rest_b.len()) by {
            assert(ta.len() == da.len() + 1 + rest_a.len());
            assert(tb.len() == db.len() + 1 + rest_b.len());
        }
        assert forall|i: int| 0 <= i < rest_a.len() implies rest_a[i] == rest_b[i] by {
            assert(ta[da.len() + 1 + i] == rest_a[i]);
            assert(tb[db.len() + 1 + i] == rest_b[i]);
        }
    }
}

/// Publishers that differ in their process or in their starting time have
/// different identities.
pub proof fn lemma_sender_id_unique(pid_a: u32, millis_a: u128, pid_b: u32, millis_b: u128)
    requires
        sender_id(pid_a, millis_a) == sender_id(pid_b, millis_b),
    ensures
        pid_a == pid_b,
        millis_a == millis_b,
{
    let prefix = CLIENT_ID_SENDER@ + seq!['_'];
    let tail_a = decimal(pid_a as nat) + seq!['_'] + decimal(millis_a as nat);
    let tail_b = decimal(pid_b as nat) + seq!['_'] + decimal(millis_b as nat);
    assert(sender_id(pid_a, millis_a) =~= prefix + tail_a);
    assert(sender_id(pid_b, millis_b) =~= prefix + tail_b);
    let whole_a = prefix + tail_a;
    let whole_b = prefix + tail_b;
    assert(tail_a =~= whole_a.subrange(prefix.len() as int, whole_a.len() as int));
    assert(tail_b =~= whole_b.subrange(prefix.len() as int, whole_b.len() as int));
    lemma_split_at_underscore(
        pid_a as nat,
        decimal(millis_a as nat),
        pid_b as nat,
        decimal(millis_b as nat),
    );
    lemma_decimal_injective(millis_a as nat, millis_b as nat);
}

/// The subscribers of different processes have different identities.
pub proof fn lemma_monitor_id_unique(pid_a: u32, pid_b: u32)
    requires
        monitor_id(pid_a) == monitor_id(pid_b),
    ensures
        pid_a == pid_b,
{
    let prefix = CLIENT_ID_MONITOR@ + seq!['_'];
    let a = decimal(pid_a as nat);
    let b = decimal(pid_b as nat);
    assert(a =~= (prefix + a).subrange(prefix.len() as int, (prefix + a).len() as int));
    assert(b =~= (prefix + b).subrange(prefix.len() as int, (prefix + b).len() as int));
    lemma_decimal_injective(pid_a as nat, pid_b as nat);
}

} // verus!
