use vstd::prelude::*;

verus! {

/// The Bluetooth base UUID, into which 16-bit short UUIDs are placed.
pub const BLUETOOTH_BASE_UUID: u128 = 0x00000000_0000_1000_8000_00805f9b34fb;

/// A short UUID sits in bits 96..112 of the full 128-bit value.
pub const SHORT_UUID_SCALE: u128 = 0x1_0000_0000_0000_0000_0000_0000;

pub const UUID_SERV: u128 = 0xA00A * SHORT_UUID_SCALE + BLUETOOTH_BASE_UUID;

pub const UUID_CHAR_BAUD: u128 = 0xB001 * SHORT_UUID_SCALE + BLUETOOTH_BASE_UUID;

pub const UUID_CHAR_WRITE: u128 = 0xB002 * SHORT_UUID_SCALE + BLUETOOTH_BASE_UUID;

pub const UUID_CHAR_READ: u128 = 0xB003 * SHORT_UUID_SCALE + BLUETOOTH_BASE_UUID;

pub const UUID_DESC_CLIENT_CHAR_CONF: u128 = 0x2902 * SHORT_UUID_SCALE + BLUETOOTH_BASE_UUID;

/// The value written to the client characteristic configuration descriptor
/// to enable notifications.
pub const NOTIFY_ENABLE_LO: u8 = 0x01;

pub const NOTIFY_ENABLE_HI: u8 = 0x00;

pub open spec fn short_uuid(short: u16) -> int {
    short as int * SHORT_UUID_SCALE as int + BLUETOOTH_BASE_UUID as int
}

/// The full UUID of a 16-bit Bluetooth short UUID.
pub fn bluetooth_uuid_from_u16(short: u16) -> (r: u128)
    ensures
        r as int == short_uuid(short),
{
    assert(short as int * SHORT_UUID_SCALE as int <= 0xFFFF * SHORT_UUID_SCALE as int) by (nonlinear_arith)
        requires short <= 0xFFFF;
    short as u128 * SHORT_UUID_SCALE + BLUETOOTH_BASE_UUID
}

/// The bytes that enable notifications through the configuration descriptor.
pub fn notify_enable_value() -> (r: Vec<u8>)
    ensures
        r@ == seq![NOTIFY_ENABLE_LO, NOTIFY_ENABLE_HI],
{
    vec![NOTIFY_ENABLE_LO, NOTIFY_ENABLE_HI]
}

/// Positions of the three characteristics of the service among those discovered.
#[derive(PartialEq, Eq, Structural, Clone, Copy, Debug)]
pub struct CharIndices {
    pub baud: usize,
    pub read: usize,
    pub write: usize,
}

/// `i` is the last position holding `u`.
pub open spec fn is_last_index(s: Seq<u128>, u: u128, i: int) -> bool {
    &&& 0 <= i < s.len()
    &&& s[i] == u
    &&& forall|j: int| i < j < s.len() ==> s[j] != u
}

/// Picks the baud, read and write characteristics by UUID; where one occurs
/// more than once the last wins. None unless all three are present.
pub fn select_characteristics(uuids: &[u128]) -> (r: Option<CharIndices>)
    ensures
        r.is_some() <==> (uuids@.contains(UUID_CHAR_BAUD) && uuids@.contains(UUID_CHAR_READ)
            && uuids@.contains(UUID_CHAR_WRITE)),
        r matches Some(c) ==> is_last_index(uuids@, UUID_CHAR_BAUD, c.baud as int)
            && is_last_index(uuids@, UUID_CHAR_READ, c.read as int)
            && is_last_index(uuids@, UUID_CHAR_WRITE, c.write as int),
{
    let mut baud: Option<usize> = None;
    let mut read: Option<usize> = None;
    let mut write: Option<usize> = None;
    let mut i: usize = 0;
    while i < uuids.len()
        invariant
            i <= uuids@.len(),
            baud.is_some() <==> uuids@.take(i as int).contains(UUID_CHAR_BAUD),
            read.is_some() <==> uuids@.take(i as int).contains(UUID_CHAR_READ),
            write.is_some() <==> uuids@.take(i as int).contains(UUID_CHAR_WRITE),
            baud matches Some(k) ==> is_last_index(uuids@.take(i as int), UUID_CHAR_BAUD, k as int),
            read matches Some(k) ==> is_last_index(uuids@.take(i as int), UUID_CHAR_READ, k as int),
            write matches Some(k) ==> is_last_index(uuids@.take(i as int), UUID_CHAR_WRITE, k as int),
        decreases uuids@.len() - i,
    {
        let u = uuids[i];
        let ghost prev = uuids@.take(i as int);
        let ghost next = uuids@.take(i as int + 1);
        assert(next =~= prev.push(u));
        if u == UUID_CHAR_BAUD {
            baud = Some(i);
        } else if u == UUID_CHAR_READ {
            read = Some(i);
        } else if u == UUID_CHAR_WRITE {
            write = Some(i);
        }
        i = i + 1;
        assert(next[i - 1] == u);
        assert(next.contains(u));
        assert(forall|x: u128| x != u ==> (next.contains(x) <==> prev.contains(x))) by {
            assert forall|x: u128| x != u implies (next.contains(x) <==> prev.contains(x)) by {
                if next.contains(x) {
                    let k = choose|k: int| 0 <= k < next.len() && next[k] == x;
                    assert(prev[k] == x);
                }
                if prev.contains(x) {
                    let k = choose|k: int| 0 <= k < prev.len() && prev[k] == x;
                    assert(next[k] == x);
                }
            }
        }
    }
    assert(uuids@.take(i as int) =~= uuids@);
    match (baud, read, write) {
        (Some(b), Some(r), Some(w)) => Some(CharIndices { baud: b, read: r, write: w }),
        _ => None,
    }
}

} // verus!
