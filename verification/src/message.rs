use mavlink::ardupilotmega::MavMessage;
use mavlink::Message;
use vstd::prelude::*;
use vstd::utf8::encode_utf8;

verus! {

#[verifier::external_type_specification]
#[verifier::external_body]
pub struct ExMavMessage(mavlink::ardupilotmega::MavMessage);

#[verifier::external_type_specification]
#[verifier::external_body]
pub struct ExJsonError(serde_json::Error);

/// The header of a received MAVLink packet, as published alongside the message.
#[derive(Clone, Copy, Debug, PartialEq, Eq)]
pub struct MessageHeader {
    /// Sender system ID.
    pub system_id: u8,
    /// Sender component ID.
    pub component_id: u8,
    /// Packet sequence number.
    pub sequence: u8,
}

/// Why a message could not be turned into a Kafka payload.
#[derive(Debug)]
pub enum PayloadError {
    /// The MAVLink message could not be encoded as JSON.
    MessageEncoding(serde_json::Error),
}

/// The character of a decimal digit.
pub open spec fn decimal_digit(d: nat) -> char {
    if d == 0 {
        '0'
    } else if d == 1 {
        '1'
    } else if d == 2 {
        '2'
    } else if d == 3 {
        '3'
    } else if d == 4 {
        '4'
    } else if d == 5 {
        '5'
    } else if d == 6 {
        '6'
    } else if d == 7 {
        '7'
    } else if d == 8 {
        '8'
    } else {
        '9'
    }
}

/// The decimal notation of `n`, without leading zeros.
pub open spec fn decimal(n: nat) -> Seq<char>
    decreases n,
{
    if n < 10 {
        seq![decimal_digit(n)]
    } else {
        decimal(n / 10).push(decimal_digit(n % 10))
    }
}

/// The Kafka topic of a message: `<prefix>.<message_name>`.
pub open spec fn topic_name(prefix: Seq<char>, message_name: Seq<char>) -> Seq<char> {
    prefix + seq!['.'] + message_name
}

/// The JSON text that precedes the message in a payload: the header object,
/// with its fields in the order system_id, component_id, sequence.
pub open spec fn payload_prefix(header: MessageHeader) -> Seq<char> {
    "{\"header\":{\"system_id\":"@ + decimal(header.system_id as nat) + ",\"component_id\":"@
        + decimal(header.component_id as nat) + ",\"sequence\":"@ + decimal(
        header.sequence as nat,
    ) + "},\"message\":"@
}

/// The payload published for a message whose JSON encoding is `message_json`:
/// the UTF-8 bytes of `{"header":{...},"message":<message_json>}`.
pub open spec fn kafka_payload_bytes(header: MessageHeader, message_json: Seq<u8>) -> Seq<u8> {
    encode_utf8(payload_prefix(header)) + message_json + encode_utf8("}"@)
}

/// Builds the Kafka topic for a message: `<prefix>.<message_name>`.
pub fn build_topic_name(prefix: &str, message_name: &str) -> (topic: String)
    ensures
        topic@ == topic_name(prefix@, message_name@),
{
    let mut topic = prefix.to_owned();
    topic.append(".");
    topic.append(message_name);
    proof {
        reveal_strlit(".");
    }
    topic
}

/// The one-character string of the decimal digit `d`.
fn digit_str(d: u8) -> (s: &'static str)
    requires
        d < 10,
    ensures
        s@ == seq![decimal_digit(d as nat)],
{
    if d == 0 {
        proof {
            reveal_strlit("0");
        }
        "0"
    } else if d == 1 {
        proof {
            reveal_strlit("1");
        }
        "1"
    } else if d == 2 {
        proof {
            reveal_strlit("2");
        }
        "2"
    } else if d == 3 {
        proof {
            reveal_strlit("3");
        }
        "3"
    } else if d == 4 {
        proof {
            reveal_strlit("4");
        }
        "4"
    } else if d == 5 {
        proof {
            reveal_strlit("5");
        }
        "5"
    } else if d == 6 {
        proof {
            reveal_strlit("6");
        }
        "6"
    } else if d == 7 {
        proof {
            reveal_strlit("7");
        }
        "7"
    } else if d == 8 {
        proof {
            reveal_strlit("8");
        }
        "8"
    } else {
        proof {
            reveal_strlit("9");
        }
        "9"
    }
}

/// Appends the decimal notation of `n` to `text`.
fn append_decimal(text: &mut String, n: u8)
    ensures
        final(text)@ == old(text)@ + decimal(n as nat),
{
    if n >= 100 {
        text.append(digit_str(n / 100));
    }
    if n >= 10 {
        text.append(digit_str((n / 10) % 10));
    }
    text.append(digit_str(n % 10));
    proof {
        let k = n as nat;
        if k >= 100 {
            assert(decimal(k / 100) == seq![decimal_digit(k / 100)]);
            assert(decimal(k / 10) == decimal((k / 10) / 10).push(decimal_digit((k / 10) % 10)));
            assert((k / 10) / 10 == k / 100);
        } else if k >= 10 {
            assert(decimal(k / 10) == seq![decimal_digit(k / 10)]);
            assert((k / 10) % 10 == k / 10);
        }
    }
}

/// The key a message is published under: the decimal system ID of its sender,
/// so that the messages of one vehicle stay in order.
pub fn partition_key(system_id: u8) -> (key: String)
    ensures
        key@ == decimal(system_id as nat),
{
    let mut key = String::new();
    append_decimal(&mut key, system_id);
    proof {
        assert(key@ =~= decimal(system_id as nat));
    }
    key
}

/// The decimal notation of a number has one character exactly when the number
/// is below ten.
proof fn lemma_decimal_len(n: nat)
    ensures
        decimal(n).len() >= 1,
        decimal(n).len() == 1 <==> n < 10,
    decreases n,
{
    if n >= 10 {
        lemma_decimal_len(n / 10);
    }
}

/// Different numbers have different decimal notations.
proof fn lemma_decimal_injective(a: nat, b: nat)
    ensures
        decimal(a) == decimal(b) ==> a == b,
    decreases a + b,
{
    lemma_decimal_len(a);
    lemma_decimal_len(b);
    if decimal(a) == decimal(b) {
        if a >= 10 && b >= 10 {
            let da = decimal(a);
            assert(da.last() == decimal_digit(a % 10));
            assert(decimal(b).last() == decimal_digit(b % 10));
            assert(da.drop_last() =~= decimal(a / 10));
            assert(decimal(b).drop_last() =~= decimal(b / 10));
            lemma_decimal_injective(a / 10, b / 10);
        } else {
            assert(decimal(a)[0] == decimal(b)[0]);
        }
    }
}

/// Two senders get the same partition key exactly when they have the same
/// system ID, so each vehicle's messages share one key and no other's.
pub proof fn lemma_partition_key_identifies_system(a: u8, b: u8)
    ensures
        decimal(a as nat) == decimal(b as nat) <==> a == b,
{
    lemma_decimal_injective(a as nat, b as nat);
}

/// Where a message is published: its topic and its partition key.
#[derive(Debug)]
pub struct RecordAddress {
    /// `<prefix>.<MESSAGE_NAME>`.
    pub topic: String,
    /// The sender's system ID in decimal.
    pub key: String,
}

/// The topic and key of a message named `message_name` from system `system_id`.
pub fn record_address(topic_prefix: &str, message_name: &str, system_id: u8) -> (address:
    RecordAddress)
    ensures
        address.topic@ == topic_name(topic_prefix@, message_name@),
        address.key@ == decimal(system_id as nat),
{
    RecordAddress { topic: build_topic_name(topic_prefix, message_name), key: partition_key(system_id) }
}

/// The name of a message's definition, such as `HEARTBEAT`, as
/// `mavlink::Message::message_name` returns it.
pub uninterp spec fn message_name(msg: MavMessage) -> Seq<char>;

/// The JSON encoding of a message as `serde_json::to_vec` produces it, tagged by
/// its `type`, or none where encoding fails (a character array that is not UTF-8).
pub uninterp spec fn message_encoding(msg: MavMessage) -> Option<Seq<u8>>;

/// Calls `mavlink::Message::message_name` on an ardupilotmega message: a match on
/// the message's kind that returns the constant name of its definition, which
/// depends on the message alone.
#[verifier::external_body]
pub fn extract_message_name(msg: &MavMessage) -> (name: &'static str)
    ensures
        name@ == message_name(*msg),
{
    msg.message_name()
}

/// Calls `serde_json::to_vec` on a message: its JSON encoding, a function of the
/// message alone, or the encoder's error where there is none.
#[verifier::external_body]
fn encode_message_json(msg: &MavMessage) -> (r: Result<Vec<u8>, serde_json::Error>)
    ensures
        match r {
            Ok(json) => message_encoding(*msg) == Some(json@),
            Err(_) => message_encoding(*msg) is None,
        },
{
    serde_json::to_vec(msg)
}

/// Appends the UTF-8 bytes of `text` to `out`.
fn append_utf8(out: &mut Vec<u8>, text: &str)
    ensures
        final(out)@ == old(out)@ + encode_utf8(text@),
{
    let bytes = text.as_bytes();
    append_bytes(out, bytes);
}

/// Appends `bytes` to `out`.
fn append_bytes(out: &mut Vec<u8>, bytes: &[u8])
    ensures
        final(out)@ == old(out)@ + bytes@,
{
    let ghost start = out@;
    let n = bytes.len();
    let mut i: usize = 0;
    while i < n
        invariant
            n == bytes@.len(),
            0 <= i <= n,
            out@ == start + bytes@.take(i as int),
        decreases n - i,
    {
        out.push(bytes[i]);
        proof {
            assert(bytes@.take(i + 1) =~= bytes@.take(i as int).push(bytes@[i as int]));
        }
        i = i + 1;
    }
    proof {
        assert(bytes@.take(n as int) =~= bytes@);
    }
}

/// The payload published for a message whose JSON encoding is `message_json`.
pub fn kafka_payload(header: &MessageHeader, message_json: &[u8]) -> (payload: Vec<u8>)
    ensures
        payload@ == kafka_payload_bytes(*header, message_json@),
{
    let mut text = String::from_str("{\"header\":{\"system_id\":");
    append_decimal(&mut text, header.system_id);
    text.append(",\"component_id\":");
    append_decimal(&mut text, header.component_id);
    text.append(",\"sequence\":");
    append_decimal(&mut text, header.sequence);
    text.append("},\"message\":");
    let mut payload: Vec<u8> = Vec::new();
    append_utf8(&mut payload, text.as_str());
    append_bytes(&mut payload, message_json);
    append_utf8(&mut payload, "}");
    proof {
        assert(text@ =~= payload_prefix(*header));
        assert(payload@ =~= kafka_payload_bytes(*header, message_json@));
    }
    payload
}

/// Serializes a message and its header into the JSON payload published to Kafka.
/// It succeeds exactly when the message has a JSON encoding, and the payload is
/// then the header object followed by that encoding; otherwise it reports the
/// encoder's error.
pub fn serialize_for_kafka(header: &MessageHeader, msg: &MavMessage) -> (r: Result<
    Vec<u8>,
    PayloadError,
>)
    ensures
        r is Ok <==> message_encoding(*msg) is Some,
        match r {
            Ok(payload) => payload@ == kafka_payload_bytes(
                *header,
                message_encoding(*msg).unwrap(),
            ),
            Err(e) => e is MessageEncoding,
        },
{
    match encode_message_json(msg) {
        Ok(json) => {
            let payload = kafka_payload(header, json.as_slice());
            Ok(payload)
        },
        Err(e) => Err(PayloadError::MessageEncoding(e)),
    }
}

/// Whether `c` is one of the characters `0` to `9`.
pub open spec fn is_digit(c: char) -> bool {
    '0' <= c && c <= '9'
}

/// The number a string of decimal digits stands for, read left to right.
pub open spec fn decimal_value(text: Seq<char>) -> int
    decreases text.len(),
{
    if text.len() == 0 {
        0
    } else {
        decimal_value(text.drop_last()) * 10 + (text.last() as int - '0' as int)
    }
}

/// `text` is a non-empty string of decimal digits that reads as `value`.
pub open spec fn reads_as(text: Seq<char>, value: int) -> bool {
    &&& text.len() > 0
    &&& forall|i: int| 0 <= i < text.len() ==> is_digit(#[trigger] text[i])
    &&& decimal_value(text) == value
}

/// The character of a digit is a digit that stands for it.
proof fn lemma_digit_reads_back(d: nat)
    requires
        d < 10,
    ensures
        is_digit(decimal_digit(d)),
        decimal_digit(d) as int - '0' as int == d,
{
    assert('1' as int == '0' as int + 1);
    assert('2' as int == '0' as int + 2);
    assert('3' as int == '0' as int + 3);
    assert('4' as int == '0' as int + 4);
    assert('5' as int == '0' as int + 5);
    assert('6' as int == '0' as int + 6);
    assert('7' as int == '0' as int + 7);
    assert('8' as int == '0' as int + 8);
    assert('9' as int == '0' as int + 9);
}

/// Reading the decimal notation of a number gives the number back.
pub proof fn lemma_decimal_reads_back(n: nat)
    ensures
        reads_as(decimal(n), n as int),
    decreases n,
{
    let d = decimal(n);
    lemma_digit_reads_back(n % 10);
    if n < 10 {
        assert(d.drop_last() =~= Seq::<char>::empty());
        assert(decimal_value(d.drop_last()) == 0);
        assert(d.last() == decimal_digit(n));
        assert(decimal_value(d) == n);
        assert forall|i: int| 0 <= i < d.len() implies is_digit(#[trigger] d[i]) by {
            assert(i == 0);
        }
    } else {
        lemma_decimal_reads_back(n / 10);
        assert(d.drop_last() =~= decimal(n / 10));
        assert forall|i: int| 0 <= i < d.len() implies is_digit(#[trigger] d[i]) by {
            if i < d.len() - 1 {
                assert(d[i] == decimal(n / 10)[i]);
            }
        }
        assert(decimal_value(d) == (n / 10) * 10 + (n % 10));
    }
}

/// The header object that opens a payload carries, as decimal numbers, exactly
/// the sender's system ID, component ID and packet sequence number, in that
/// order; the message's encoding follows, and the payload closes the object.
pub proof fn lemma_payload_carries_header(header: MessageHeader, message_json: Seq<u8>)
    ensures
        exists|sid: Seq<char>, cid: Seq<char>, seq_no: Seq<char>|
            #![trigger reads_as(sid, header.system_id as int), reads_as(cid, header.component_id as int), reads_as(seq_no, header.sequence as int)]
            {
                &&& reads_as(sid, header.system_id as int)
                &&& reads_as(cid, header.component_id as int)
                &&& reads_as(seq_no, header.sequence as int)
                &&& kafka_payload_bytes(header, message_json) == encode_utf8(
                    "{\"header\":{\"system_id\":"@ + sid + ",\"component_id\":"@ + cid
                        + ",\"sequence\":"@ + seq_no + "},\"message\":"@,
                ) + message_json + encode_utf8("}"@)
            },
{
    let sid = decimal(header.system_id as nat);
    let cid = decimal(header.component_id as nat);
    let seq_no = decimal(header.sequence as nat);
    lemma_decimal_reads_back(header.system_id as nat);
    lemma_decimal_reads_back(header.component_id as nat);
    lemma_decimal_reads_back(header.sequence as nat);
    assert(reads_as(sid, header.system_id as int));
    assert(reads_as(cid, header.component_id as int));
    assert(reads_as(seq_no, header.sequence as int));
}

/// A topic is the whole prefix, a dot, then the whole message name.
pub proof fn lemma_topic_is_prefix_dot_name(prefix: Seq<char>, message_name: Seq<char>)
    ensures
        topic_name(prefix, message_name).len() == prefix.len() + 1 + message_name.len(),
        topic_name(prefix, message_name).subrange(0, prefix.len() as int) == prefix,
        topic_name(prefix, message_name)[prefix.len() as int] == '.',
        topic_name(prefix, message_name).subrange(
            prefix.len() + 1int,
            topic_name(prefix, message_name).len() as int,
        ) == message_name,
{
    let t = topic_name(prefix, message_name);
    assert(t.subrange(0, prefix.len() as int) =~= prefix);
    assert(t.subrange(prefix.len() + 1int, t.len() as int) =~= message_name);
}

} // verus!
