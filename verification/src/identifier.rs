//! The product identifier of a sensor and the sensor models it names.
//!
//! The answer to the product identifier commands is 18 bytes: six 16-bit
//! words, each big endian and followed by its CRC-8. The first two words are
//! the 32-bit product number, the last four the 64-bit serial number.

use vstd::prelude::*;

use crate::crc8::{compute_crc8, crc8, crc8_detects_single_byte_errors};

verus! {

/// Length of the answer to the product identifier commands.
pub const PRODUCT_IDENTIFIER_LEN: usize = 18;

/// Product number and serial number of a sensor.
#[derive(Clone, Copy, Debug, PartialEq, Eq, Structural)]
pub struct ProductIdentifier {
    pub product_number: u32,
    pub serial_number: u64,
}

/// Whether the `i`-th word of `bytes` is followed by its CRC-8.
pub open spec fn word_is_valid(bytes: Seq<u8>, i: int) -> bool {
    crc8(bytes.subrange(3 * i, 3 * i + 2)) == bytes[3 * i + 2]
}

/// The `i`-th word of `bytes`, big endian.
pub open spec fn word(bytes: Seq<u8>, i: int) -> int {
    bytes[3 * i] as int * 256 + bytes[3 * i + 1] as int
}

/// The identifier that `bytes` carries: `None` unless it is 18 bytes long
/// and every word passes its CRC check.
pub open spec fn product_identifier(bytes: Seq<u8>) -> Option<ProductIdentifier> {
    if bytes.len() == PRODUCT_IDENTIFIER_LEN && forall|i: int|
        0 <= i < 6 ==> #[trigger] word_is_valid(bytes, i) {
        Some(
            ProductIdentifier {
                product_number: (word(bytes, 0) * 0x1_0000 + word(bytes, 1)) as u32,
                serial_number: (word(bytes, 2) * 0x1_0000_0000_0000 + word(bytes, 3)
                    * 0x1_0000_0000 + word(bytes, 4) * 0x1_0000 + word(bytes, 5)) as u64,
            },
        )
    } else {
        None
    }
}

/// The `i`-th word of `bytes`, or `None` when its CRC does not match.
fn checked_word(bytes: &[u8], i: usize) -> (w: Option<u16>)
    requires
        i < 6,
        bytes@.len() == PRODUCT_IDENTIFIER_LEN,
    ensures
        w is Some <==> word_is_valid(bytes@, i as int),
        w matches Some(v) ==> v as int == word(bytes@, i as int),
{
    let high: u8 = bytes[3 * i];
    let low: u8 = bytes[3 * i + 1];
    let pair: [u8; 2] = [high, low];
    assert(pair@ =~= bytes@.subrange(3 * i as int, 3 * i as int + 2));
    if compute_crc8(pair.as_slice()) == bytes[3 * i + 2] {
        Some(high as u16 * 256 + low as u16)
    } else {
        None
    }
}

/// Reads the product identifier out of the answer to the product identifier
/// commands; `None` when the answer is not 18 bytes long or a word fails
/// its CRC check.
pub fn parse_product_identifier(bytes: &[u8]) -> (id: Option<ProductIdentifier>)
    ensures
        id == product_identifier(bytes@),
{
    if bytes.len() != PRODUCT_IDENTIFIER_LEN {
        return None;
    }
    let mut words: Vec<u16> = Vec::new();
    for i in 0..6
        invariant
            bytes@.len() == PRODUCT_IDENTIFIER_LEN,
            words@.len() == i,
            forall|j: int| 0 <= j < i ==> #[trigger] word_is_valid(bytes@, j),
            forall|j: int| 0 <= j < i ==> words@[j] as int == word(bytes@, j),
    {
        match checked_word(bytes, i) {
            Some(w) => words.push(w),
            None => {
                return None;
            },
        }
    }
    let product_number: u32 = words[0] as u32 * 0x1_0000 + words[1] as u32;
    let serial_number: u64 = words[2] as u64 * 0x1_0000_0000_0000 + words[3] as u64
        * 0x1_0000_0000 + words[4] as u64 * 0x1_0000 + words[5] as u64;
    Some(ProductIdentifier { product_number, serial_number })
}

/// The three bytes that carry the word `w`: high byte, low byte, CRC-8.
pub open spec fn word_bytes(w: int) -> Seq<u8> {
    let high = (w / 256) as u8;
    let low = (w % 256) as u8;
    seq![high, low, crc8(seq![high, low])]
}

/// The answer a sensor with identifier `id` gives.
pub open spec fn identifier_bytes(id: ProductIdentifier) -> Seq<u8> {
    let p = id.product_number as int;
    let s = id.serial_number as int;
    word_bytes(p / 0x1_0000) + word_bytes(p % 0x1_0000) + word_bytes(s / 0x1_0000_0000_0000)
        + word_bytes((s / 0x1_0000_0000) % 0x1_0000) + word_bytes((s / 0x1_0000) % 0x1_0000)
        + word_bytes(s % 0x1_0000)
}

/// The `i`-th word of the answer is the `i`-th word given.
proof fn lemma_words_of_answer(ws: Seq<int>, bytes: Seq<u8>, i: int)
    requires
        ws.len() == 6,
        forall|j: int| 0 <= j < 6 ==> 0 <= #[trigger] ws[j] < 0x1_0000,
        bytes == word_bytes(ws[0]) + word_bytes(ws[1]) + word_bytes(ws[2]) + word_bytes(ws[3])
            + word_bytes(ws[4]) + word_bytes(ws[5]),
        0 <= i < 6,
    ensures
        bytes.len() == 18,
        word_is_valid(bytes, i),
        word(bytes, i) == ws[i],
{
    let w = ws[i];
    assert(bytes.subrange(3 * i, 3 * i + 3) =~= word_bytes(w));
    assert(bytes.subrange(3 * i, 3 * i + 2) =~= seq![(w / 256) as u8, (w % 256) as u8]);
    assert(bytes[3 * i] == (w / 256) as u8);
    assert(bytes[3 * i + 1] == (w % 256) as u8);
}

/// Parsing the answer of a sensor gives back its identifier.
pub proof fn product_identifier_round_trips(id: ProductIdentifier)
    ensures
        product_identifier(identifier_bytes(id)) == Some(id),
{
    let p = id.product_number as int;
    let s = id.serial_number as int;
    let ws = seq![
        p / 0x1_0000,
        p % 0x1_0000,
        s / 0x1_0000_0000_0000,
        (s / 0x1_0000_0000) % 0x1_0000,
        (s / 0x1_0000) % 0x1_0000,
        s % 0x1_0000,
    ];
    let bytes = identifier_bytes(id);
    assert(0 <= p / 0x1_0000 < 0x1_0000) by (nonlinear_arith)
        requires
            0 <= p < 0x1_0000_0000,
    ;
    assert(0 <= s / 0x1_0000_0000_0000 < 0x1_0000) by (nonlinear_arith)
        requires
            0 <= s < 0x1_0000_0000_0000_0000,
    ;
    assert forall|j: int| 0 <= j < 6 implies 0 <= #[trigger] ws[j] < 0x1_0000 by {}
    assert(bytes == word_bytes(ws[0]) + word_bytes(ws[1]) + word_bytes(ws[2]) + word_bytes(ws[3])
        + word_bytes(ws[4]) + word_bytes(ws[5]));
    assert forall|i: int| 0 <= i < 6 implies #[trigger] word_is_valid(bytes, i) by {
        lemma_words_of_answer(ws, bytes, i);
    }
    lemma_words_of_answer(ws, bytes, 0);
    lemma_words_of_answer(ws, bytes, 1);
    lemma_words_of_answer(ws, bytes, 2);
    lemma_words_of_answer(ws, bytes, 3);
    lemma_words_of_answer(ws, bytes, 4);
    lemma_words_of_answer(ws, bytes, 5);
    assert(p == (p / 0x1_0000) * 0x1_0000 + p % 0x1_0000) by (nonlinear_arith);
    assert(s == (s / 0x1_0000_0000_0000) * 0x1_0000_0000_0000 + ((s / 0x1_0000_0000)
        % 0x1_0000) * 0x1_0000_0000 + ((s / 0x1_0000) % 0x1_0000) * 0x1_0000 + s % 0x1_0000)
        by (nonlinear_arith)
        requires
            0 <= s,
    ;
}

/// An accepted answer has had every one of its six words checked against
/// the CRC that follows it, and its numbers are its words, big endian: the
/// product number the first two, the serial number the last four.
pub proof fn accepted_identifiers_are_checked_words(bytes: Seq<u8>)
    ensures
        product_identifier(bytes) matches Some(id) ==> {
            &&& bytes.len() == 18
            &&& crc8(bytes.subrange(0, 2)) == bytes[2]
            &&& crc8(bytes.subrange(3, 5)) == bytes[5]
            &&& crc8(bytes.subrange(6, 8)) == bytes[8]
            &&& crc8(bytes.subrange(9, 11)) == bytes[11]
            &&& crc8(bytes.subrange(12, 14)) == bytes[14]
            &&& crc8(bytes.subrange(15, 17)) == bytes[17]
            &&& id.product_number as int == bytes[0] as int * 0x100_0000 + bytes[1] as int
                * 0x1_0000 + bytes[3] as int * 0x100 + bytes[4] as int
            &&& id.serial_number as int == bytes[6] as int * 0x100_0000_0000_0000 + bytes[7] as int
                * 0x1_0000_0000_0000 + bytes[9] as int * 0x100_0000_0000 + bytes[10] as int
                * 0x1_0000_0000 + bytes[12] as int * 0x100_0000 + bytes[13] as int * 0x1_0000
                + bytes[15] as int * 0x100 + bytes[16] as int
        },
{
    if product_identifier(bytes) is Some {
        assert(word_is_valid(bytes, 0));
        assert(word_is_valid(bytes, 1));
        assert(word_is_valid(bytes, 2));
        assert(word_is_valid(bytes, 3));
        assert(word_is_valid(bytes, 4));
        assert(word_is_valid(bytes, 5));
    }
}

/// A single corrupted byte never gets through: changing any one byte of an
/// accepted answer makes the answer refused.
pub proof fn corrupted_identifiers_are_refused(bytes: Seq<u8>, corrupted: Seq<u8>, j: int)
    requires
        product_identifier(bytes) is Some,
        corrupted.len() == bytes.len(),
        0 <= j < bytes.len(),
        corrupted[j] != bytes[j],
        forall|k: int| 0 <= k < bytes.len() && k != j ==> corrupted[k] == bytes[k],
    ensures
        product_identifier(corrupted) is None,
{
    let w = j / 3;
    assert(0 <= w < 6);
    assert(word_is_valid(bytes, w));
    if product_identifier(corrupted) is Some {
        assert(word_is_valid(corrupted, w));
        let sb = bytes.subrange(3 * w, 3 * w + 2);
        let sc = corrupted.subrange(3 * w, 3 * w + 2);
        if j == 3 * w + 2 {
            assert(sb =~= sc);
        } else {
            let r = j - 3 * w;
            assert(sb[r] != sc[r]);
            assert forall|k: int| 0 <= k < 2 && k != r implies sc[k] == sb[k] by {}
            crc8_detects_single_byte_errors(sc, sb, r);
        }
    }
}

/// The sensor models the device recognises.
#[derive(Clone, Copy, Debug, PartialEq, Eq, Structural)]
pub enum SensorModel {
    Slf3s1300F,
    Slf3s0600F,
    Slf3c1300F,
    Slf3s4000B,
}

/// The product number of each model.
pub open spec fn model_product_number(model: SensorModel) -> u32 {
    match model {
        SensorModel::Slf3s1300F => 0x07030202,
        SensorModel::Slf3s0600F => 0x07030302,
        SensorModel::Slf3c1300F => 0x07030402,
        SensorModel::Slf3s4000B => 0x07030501,
    }
}

/// The model with product number `product_number`, if any.
pub open spec fn model_of(product_number: u32) -> Option<SensorModel> {
    if product_number == 0x07030202 {
        Some(SensorModel::Slf3s1300F)
    } else if product_number == 0x07030302 {
        Some(SensorModel::Slf3s0600F)
    } else if product_number == 0x07030402 {
        Some(SensorModel::Slf3c1300F)
    } else if product_number == 0x07030501 {
        Some(SensorModel::Slf3s4000B)
    } else {
        None
    }
}

/// The name of each model.
pub open spec fn model_name(model: SensorModel) -> Seq<char> {
    match model {
        SensorModel::Slf3s1300F => "SLF3S-1300F"@,
        SensorModel::Slf3s0600F => "SLF3S-0600F"@,
        SensorModel::Slf3c1300F => "SLF3C-1300F"@,
        SensorModel::Slf3s4000B => "SLF3S-4000B"@,
    }
}

impl SensorModel {
    /// The model with product number `product_number`; `None` for a sensor
    /// this device does not know.
    pub fn from_product_number(product_number: u32) -> (model: Option<SensorModel>)
        ensures
            model == model_of(product_number),
    {
        if product_number == 0x07030202 {
            Some(SensorModel::Slf3s1300F)
        } else if product_number == 0x07030302 {
            Some(SensorModel::Slf3s0600F)
        } else if product_number == 0x07030402 {
            Some(SensorModel::Slf3c1300F)
        } else if product_number == 0x07030501 {
            Some(SensorModel::Slf3s4000B)
        } else {
            None
        }
    }

    /// The product number of the model.
    pub fn product_number(&self) -> (number: u32)
        ensures
            number == model_product_number(*self),
    {
        match self {
            SensorModel::Slf3s1300F => 0x07030202,
            SensorModel::Slf3s0600F => 0x07030302,
            SensorModel::Slf3c1300F => 0x07030402,
            SensorModel::Slf3s4000B => 0x07030501,
        }
    }

    /// The name of the model, as written on the sensor.
    pub fn name(&self) -> (name: &'static str)
        ensures
            name@ == model_name(*self),
    {
        match self {
            SensorModel::Slf3s1300F => "SLF3S-1300F",
            SensorModel::Slf3s0600F => "SLF3S-0600F",
            SensorModel::Slf3c1300F => "SLF3C-1300F",
            SensorModel::Slf3s4000B => "SLF3S-4000B",
        }
    }
}

/// Recognising a model gives back that model, from its product number and
/// from nothing else: every model is found by its own number, and a number
/// that is recognised is that model's number.
pub proof fn model_recognition_round_trips(model: SensorModel, product_number: u32)
    ensures
        model_of(model_product_number(model)) == Some(model),
        model_of(product_number) == Some(model) ==> product_number == model_product_number(
            model,
        ),
{
}

} // verus!
