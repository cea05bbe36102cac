use validator_history::errors::InstructionError;
use validator_history::state::vote_state::{
    deserialize_commission, deserialize_epoch_credits_count, deserialize_node_pubkey,
};

const MAX_ITEMS: usize = 32;
const MAX_LOCKOUT_HISTORY: usize = 31;

fn random_pubkey() -> [u8; 32] {
    let mut buf = [0u8; 32];
    for (i, b) in buf.iter_mut().enumerate() {
        *b = (i as u8).wrapping_mul(7).wrapping_add(13);
    }
    buf
}

/// Builds the bincode encoding of a vote state, field by field.
struct Encoder {
    bytes: Vec<u8>,
}

impl Encoder {
    fn new(version_tag: u32) -> Self {
        let mut e = Encoder { bytes: Vec::new() };
        e.u32(version_tag);
        e
    }
    fn u8(&mut self, v: u8) {
        self.bytes.push(v);
    }
    fn u16(&mut self, v: u16) {
        self.bytes.extend_from_slice(&v.to_le_bytes());
    }
    fn u32(&mut self, v: u32) {
        self.bytes.extend_from_slice(&v.to_le_bytes());
    }
    fn u64(&mut self, v: u64) {
        self.bytes.extend_from_slice(&v.to_le_bytes());
    }
    fn pubkey(&mut self, k: [u8; 32]) {
        self.bytes.extend_from_slice(&k);
    }
    fn option_u64(&mut self, v: Option<u64>) {
        match v {
            None => self.u8(0),
            Some(x) => {
                self.u8(1);
                self.u64(x);
            }
        }
    }
    /// `votes` lockouts (slot, confirmation count), all zero.
    fn lockouts(&mut self, votes: usize) {
        self.u64(votes as u64);
        for _ in 0..votes {
            self.u64(0);
            self.u32(0);
        }
    }
    /// `votes` landed votes (latency, slot, confirmation count), all zero.
    fn landed_votes(&mut self, votes: usize) {
        self.u64(votes as u64);
        for _ in 0..votes {
            self.u8(0);
            self.u64(0);
            self.u32(0);
        }
    }
    fn authorized_voters(&mut self, voters: &[(u64, [u8; 32])]) {
        self.u64(voters.len() as u64);
        for (epoch, key) in voters {
            self.u64(*epoch);
            self.pubkey(*key);
        }
    }
    /// Default prior voters ring of `(pubkey, epoch, epoch, slot)` items.
    fn prior_voters_with_slot(&mut self) {
        for _ in 0..MAX_ITEMS {
            self.pubkey([0; 32]);
            self.u64(0);
            self.u64(0);
            self.u64(0);
        }
        self.u64(0);
        self.u8(0);
    }
    /// Default prior voters ring of `(pubkey, epoch, epoch)` items.
    fn prior_voters(&mut self) {
        for _ in 0..MAX_ITEMS {
            self.pubkey([0; 32]);
            self.u64(0);
            self.u64(0);
        }
        self.u64(0);
        self.u8(0);
    }
    fn epoch_credits(&mut self, credits: &[(u64, u64, u64)]) {
        self.u64(credits.len() as u64);
        for (a, b, c) in credits {
            self.u64(*a);
            self.u64(*b);
            self.u64(*c);
        }
    }
    fn last_timestamp(&mut self, slot: u64, timestamp: i64) {
        self.u64(slot);
        self.bytes.extend_from_slice(&timestamp.to_le_bytes());
    }
}

struct V0Fields {
    node_pubkey: [u8; 32],
    commission: u8,
    votes: usize,
    root_slot: Option<u64>,
    epoch_credits: Vec<(u64, u64, u64)>,
}

fn encode_v0_23_5(f: V0Fields) -> Vec<u8> {
    let mut e = Encoder::new(0);
    e.pubkey(f.node_pubkey);
    e.pubkey(random_pubkey());
    e.u64(0);
    e.prior_voters_with_slot();
    e.pubkey(random_pubkey());
    e.u8(f.commission);
    e.lockouts(f.votes);
    e.option_u64(f.root_slot);
    e.epoch_credits(&f.epoch_credits);
    e.last_timestamp(0, 0);
    e.bytes
}

struct V1Fields {
    node_pubkey: [u8; 32],
    commission: u8,
    votes: usize,
    root_slot: Option<u64>,
    authorized_voters: Vec<(u64, [u8; 32])>,
    epoch_credits: Vec<(u64, u64, u64)>,
    last_timestamp: (u64, i64),
}

fn encode_v1(version_tag: u32, landed: bool, f: V1Fields) -> Vec<u8> {
    let mut e = Encoder::new(version_tag);
    e.pubkey(f.node_pubkey);
    e.pubkey(random_pubkey());
    e.u8(f.commission);
    if landed {
        e.landed_votes(f.votes);
    } else {
        e.lockouts(f.votes);
    }
    e.option_u64(f.root_slot);
    e.authorized_voters(&f.authorized_voters);
    e.prior_voters();
    e.epoch_credits(&f.epoch_credits);
    e.last_timestamp(f.last_timestamp.0, f.last_timestamp.1);
    e.bytes
}

fn encode_v1_14_11(f: V1Fields) -> Vec<u8> {
    encode_v1(1, false, f)
}

fn encode_v1_16_0(f: V1Fields) -> Vec<u8> {
    encode_v1(2, true, f)
}

struct CurrentFields {
    node_pubkey: [u8; 32],
    bls_pubkey: Option<[u8; 48]>,
    votes: usize,
    root_slot: Option<u64>,
    authorized_voters: Vec<(u64, [u8; 32])>,
    epoch_credits: Vec<(u64, u64, u64)>,
}

fn encode_current(f: CurrentFields) -> Vec<u8> {
    let mut e = Encoder::new(3);
    e.pubkey(f.node_pubkey);
    e.pubkey(random_pubkey());
    e.pubkey(random_pubkey());
    e.pubkey(random_pubkey());
    e.u16(99);
    e.u16(99);
    e.u64(0);
    match f.bls_pubkey {
        None => e.u8(0),
        Some(bytes) => {
            e.u8(1);
            e.bytes.extend_from_slice(&bytes);
        }
    }
    e.landed_votes(f.votes);
    e.option_u64(f.root_slot);
    e.authorized_voters(&f.authorized_voters);
    e.epoch_credits(&f.epoch_credits);
    e.last_timestamp(0, 0);
    e.bytes
}

#[test]
fn test_epoch_credits_count_v1_14_11() {
    let encoded = encode_v1_14_11(V1Fields {
        node_pubkey: random_pubkey(),
        commission: 96,
        votes: MAX_LOCKOUT_HISTORY,
        root_slot: None,
        authorized_voters: vec![(99, random_pubkey())],
        epoch_credits: vec![(1, 2, 3), (6, 4, 5)],
        last_timestamp: (1, 2),
    });
    assert_eq!(deserialize_epoch_credits_count(&encoded).unwrap(), 2);
}

#[test]
fn test_epoch_credits_count_v0_23_5() {
    let encoded = encode_v0_23_5(V0Fields {
        node_pubkey: random_pubkey(),
        commission: 69,
        votes: 0,
        root_slot: None,
        epoch_credits: vec![(70, 6, 9), (321, 4, 20)],
    });
    assert_eq!(deserialize_epoch_credits_count(&encoded).unwrap(), 2);
}

#[test]
fn test_epoch_credits_count_v1_16_0() {
    let encoded = encode_v1_16_0(V1Fields {
        node_pubkey: random_pubkey(),
        commission: 99,
        votes: 0,
        root_slot: None,
        authorized_voters: vec![],
        epoch_credits: vec![(70, 9, 6), (321, 20, 4)],
        last_timestamp: (0, 0),
    });
    assert_eq!(deserialize_epoch_credits_count(&encoded).unwrap(), 2);
}

#[test]
fn test_epoch_credits_count_current_with_bls() {
    let encoded = encode_current(CurrentFields {
        node_pubkey: random_pubkey(),
        bls_pubkey: Some([0; 48]),
        votes: 0,
        root_slot: Some(1),
        authorized_voters: vec![],
        epoch_credits: vec![(70, 9, 6), (321, 20, 4)],
    });
    assert_eq!(deserialize_epoch_credits_count(&encoded).unwrap(), 2);
}

#[test]
fn test_epoch_credits_count_current_no_bls() {
    let encoded = encode_current(CurrentFields {
        node_pubkey: random_pubkey(),
        bls_pubkey: None,
        votes: 0,
        root_slot: Some(1),
        authorized_voters: vec![],
        epoch_credits: vec![(70, 9, 6), (321, 20, 4)],
    });
    assert_eq!(deserialize_epoch_credits_count(&encoded).unwrap(), 2);
}

#[test]
fn test_epoch_credits_count_current_no_root_slot() {
    let encoded = encode_current(CurrentFields {
        node_pubkey: random_pubkey(),
        bls_pubkey: Some([0; 48]),
        votes: 0,
        root_slot: None,
        authorized_voters: vec![],
        epoch_credits: vec![(70, 9, 6), (321, 20, 4)],
    });
    assert_eq!(deserialize_epoch_credits_count(&encoded).unwrap(), 2);
}

#[test]
fn test_epoch_credits_count_current_non_empty_authorized_voters() {
    let encoded = encode_current(CurrentFields {
        node_pubkey: random_pubkey(),
        bls_pubkey: Some([0; 48]),
        votes: 0,
        root_slot: Some(1),
        authorized_voters: vec![(0, random_pubkey())],
        epoch_credits: vec![(70, 9, 6), (321, 20, 4)],
    });
    assert_eq!(deserialize_epoch_credits_count(&encoded).unwrap(), 2);
}

#[test]
fn test_epoch_credits_count_empty() {
    let encoded = encode_v1_14_11(V1Fields {
        node_pubkey: random_pubkey(),
        commission: 96,
        votes: 0,
        root_slot: None,
        authorized_voters: vec![],
        epoch_credits: vec![],
        last_timestamp: (0, 0),
    });
    assert_eq!(deserialize_epoch_credits_count(&encoded).unwrap(), 0);
}

#[test]
fn test_deserialize_commission_v1_14_11() {
    let encoded = encode_v1_14_11(V1Fields {
        node_pubkey: random_pubkey(),
        commission: 96,
        votes: 0,
        root_slot: None,
        authorized_voters: vec![],
        epoch_credits: vec![],
        last_timestamp: (0, 0),
    });
    assert_eq!(deserialize_commission(&encoded).unwrap(), 96);
}

#[test]
fn test_deserialize_commission_v0_23_5() {
    let encoded = encode_v0_23_5(V0Fields {
        node_pubkey: random_pubkey(),
        commission: 69,
        votes: 0,
        root_slot: None,
        epoch_credits: vec![],
    });
    assert_eq!(deserialize_commission(&encoded).unwrap(), 69);
}

#[test]
fn test_deserialize_commission_v1_16_0() {
    let encoded = encode_v1_16_0(V1Fields {
        node_pubkey: random_pubkey(),
        commission: 99,
        votes: 0,
        root_slot: None,
        authorized_voters: vec![],
        epoch_credits: vec![],
        last_timestamp: (0, 0),
    });
    assert_eq!(deserialize_commission(&encoded).unwrap(), 99);
}

#[test]
fn test_deserialize_node_pubkey_all_versions() {
    let node_pk = random_pubkey();

    let encoded = encode_v0_23_5(V0Fields {
        node_pubkey: node_pk,
        commission: 69,
        votes: 0,
        root_slot: None,
        epoch_credits: vec![],
    });
    assert_eq!(deserialize_node_pubkey(&encoded).unwrap(), node_pk);

    let encoded = encode_v1_14_11(V1Fields {
        node_pubkey: node_pk,
        commission: 96,
        votes: 0,
        root_slot: None,
        authorized_voters: vec![],
        epoch_credits: vec![],
        last_timestamp: (0, 0),
    });
    assert_eq!(deserialize_node_pubkey(&encoded).unwrap(), node_pk);

    let encoded = encode_v1_16_0(V1Fields {
        node_pubkey: node_pk,
        commission: 99,
        votes: 0,
        root_slot: None,
        authorized_voters: vec![],
        epoch_credits: vec![],
        last_timestamp: (0, 0),
    });
    assert_eq!(deserialize_node_pubkey(&encoded).unwrap(), node_pk);

    let encoded = encode_current(CurrentFields {
        node_pubkey: node_pk,
        bls_pubkey: None,
        votes: 0,
        root_slot: None,
        authorized_voters: vec![],
        epoch_credits: vec![],
    });
    assert_eq!(deserialize_node_pubkey(&encoded).unwrap(), node_pk);
}

// Further cases.

#[test]
fn commission_of_current_version() {
    let mut encoded = encode_current(CurrentFields {
        node_pubkey: random_pubkey(),
        bls_pubkey: None,
        votes: 0,
        root_slot: None,
        authorized_voters: vec![],
        epoch_credits: vec![],
    });
    // The current layout keeps a commission byte at offset 132 (first byte of the
    // inflation rewards commission).
    encoded[132] = 42;
    assert_eq!(deserialize_commission(&encoded), Ok(42));
}

#[test]
fn commission_errors() {
    assert_eq!(deserialize_commission(&[]), Err(InstructionError::InvalidAccountData));
    assert_eq!(deserialize_commission(&[1, 0, 0]), Err(InstructionError::InvalidAccountData));
    // Known tag, data too short for the commission byte.
    let mut short = vec![1u8, 0, 0, 0];
    short.extend_from_slice(&[0u8; 64]);
    assert_eq!(deserialize_commission(&short), Err(InstructionError::InvalidAccountData));
    short.push(7);
    assert_eq!(deserialize_commission(&short), Ok(7));
    // Unknown tag.
    let mut unknown = vec![4u8, 0, 0, 0];
    unknown.extend_from_slice(&[0u8; 2000]);
    assert_eq!(deserialize_commission(&unknown), Err(InstructionError::InvalidAccountData));
}

#[test]
fn epoch_credits_count_with_votes_and_root_slot() {
    let encoded = encode_v1_16_0(V1Fields {
        node_pubkey: random_pubkey(),
        commission: 1,
        votes: 5,
        root_slot: Some(77),
        authorized_voters: vec![(1, random_pubkey()), (2, random_pubkey())],
        epoch_credits: vec![(1, 1, 0), (2, 2, 1), (3, 3, 2), (4, 4, 3), (5, 5, 4), (6, 6, 5)],
        last_timestamp: (0, 0),
    });
    assert_eq!(deserialize_epoch_credits_count(&encoded), Ok(6));
    let encoded = encode_v0_23_5(V0Fields {
        node_pubkey: random_pubkey(),
        commission: 1,
        votes: 3,
        root_slot: Some(5),
        epoch_credits: vec![(1, 1, 0), (2, 2, 1), (3, 3, 2)],
    });
    assert_eq!(deserialize_epoch_credits_count(&encoded), Ok(3));
}

#[test]
fn epoch_credits_count_errors() {
    // No version tag.
    assert_eq!(deserialize_epoch_credits_count(&[0, 0]), Err(InstructionError::InvalidAccountData));
    // Unknown version tag counts no entries.
    assert_eq!(deserialize_epoch_credits_count(&[9, 0, 0, 0]), Ok(0));
    // Truncated entries.
    let mut encoded = encode_v1_14_11(V1Fields {
        node_pubkey: random_pubkey(),
        commission: 1,
        votes: 0,
        root_slot: None,
        authorized_voters: vec![],
        epoch_credits: vec![(1, 2, 3), (4, 5, 6)],
        last_timestamp: (0, 0),
    });
    // Drop the last timestamp (16 bytes) and part of the last entry.
    encoded.truncate(encoded.len() - 20);
    assert_eq!(deserialize_epoch_credits_count(&encoded), Err(InstructionError::InvalidAccountData));
    // Bad root slot option tag.
    let mut encoded = encode_v1_14_11(V1Fields {
        node_pubkey: random_pubkey(),
        commission: 1,
        votes: 0,
        root_slot: None,
        authorized_voters: vec![],
        epoch_credits: vec![],
        last_timestamp: (0, 0),
    });
    encoded[77] = 2;
    assert_eq!(deserialize_epoch_credits_count(&encoded), Err(InstructionError::InvalidAccountData));
    // Bad BLS option tag.
    let mut encoded = encode_current(CurrentFields {
        node_pubkey: random_pubkey(),
        bls_pubkey: None,
        votes: 0,
        root_slot: None,
        authorized_voters: vec![],
        epoch_credits: vec![],
    });
    encoded[144] = 3;
    assert_eq!(deserialize_epoch_credits_count(&encoded), Err(InstructionError::InvalidAccountData));
}

#[test]
fn epoch_credits_count_position_overflow() {
    // A votes collection length so large that the root slot position does not fit in
    // usize: no data can hold it.
    let mut data = vec![1u8, 0, 0, 0];
    data.extend_from_slice(&[0u8; 65]);
    data.extend_from_slice(&u64::MAX.to_le_bytes());
    assert_eq!(deserialize_epoch_credits_count(&data), Err(InstructionError::InvalidAccountData));
    // A collection length that fits but lies beyond the data is an error too.
    let mut data = vec![1u8, 0, 0, 0];
    data.extend_from_slice(&[0u8; 65]);
    data.extend_from_slice(&1000u64.to_le_bytes());
    assert_eq!(deserialize_epoch_credits_count(&data), Err(InstructionError::InvalidAccountData));
    // An epoch credits length whose entries overflow usize.
    let mut data = vec![1u8, 0, 0, 0];
    data.extend_from_slice(&[0u8; 65]);
    data.extend_from_slice(&0u64.to_le_bytes()); // votes
    data.push(0); // no root slot
    data.extend_from_slice(&0u64.to_le_bytes()); // authorized voters
    data.extend_from_slice(&[0u8; 1545]); // prior voters
    data.extend_from_slice(&(u64::MAX / 2).to_le_bytes());
    assert_eq!(deserialize_epoch_credits_count(&data), Err(InstructionError::InvalidAccountData));
    // Authorized voters whose size overflows usize.
    let mut data = vec![2u8, 0, 0, 0];
    data.extend_from_slice(&[0u8; 65]);
    data.extend_from_slice(&0u64.to_le_bytes()); // votes
    data.push(1); // root slot present
    data.extend_from_slice(&5u64.to_le_bytes());
    data.extend_from_slice(&u64::MAX.to_le_bytes()); // authorized voters
    assert_eq!(deserialize_epoch_credits_count(&data), Err(InstructionError::InvalidAccountData));
}

#[test]
fn node_pubkey_needs_36_bytes() {
    let mut data = vec![0u8; 35];
    assert_eq!(deserialize_node_pubkey(&data), Err(InstructionError::InvalidAccountData));
    data.push(9);
    let pk = deserialize_node_pubkey(&data).unwrap();
    assert_eq!(pk[31], 9);
    assert_eq!(pk[0], 0);
}
