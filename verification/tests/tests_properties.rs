use cayenne_lpp::{
    CayenneLPP, CayenneLPPScalar, CayenneLPPValue, Error, LPP_GPS, LPP_TEMPERATURE,
    LPP_TEMPERATURE_SIZE,
};

#[test]
fn capacity_exactness() {
    // A buffer of exactly one wire size: the first add succeeds, a second
    // one fails with InsufficientMemory and leaves the payload unchanged.
    let mut lpp = CayenneLPP::new(vec![0u8; LPP_TEMPERATURE_SIZE]);

    lpp.add_temperature(3, 272).unwrap();
    let first: Vec<u8> = lpp.payload_slice().to_vec();

    let result = lpp.add_temperature(5, 255);
    assert_eq!(Err(Error::InsufficientMemory), result);
    assert_eq!(first, lpp.payload_slice().to_vec());
    assert_eq!(vec![0x03, LPP_TEMPERATURE, 0x01, 0x10], first);
}

#[test]
fn gps_24bit_packing_and_unpacking() {
    // The 11-byte GPS fixture: 3-byte signed packing with the sign carried
    // in the top bit of the first longitude byte, and unpacking together.
    let mut lpp = CayenneLPP::new(vec![0u8; 11]);
    lpp.add_gps(1, 423518, -879094, 1000).unwrap();

    let expected_bytes: [u8; 11] =
        [0x01, LPP_GPS, 0x06, 0x76, 0x5E, 0xF2, 0x96, 0x0A, 0x00, 0x03, 0xE8];
    assert_eq!(expected_bytes, lpp.payload_slice());

    let mut iter = lpp.into_iter();
    assert_eq!(
        Some(Ok(CayenneLPPScalar { channel: 1, value: CayenneLPPValue::GPS(423518, -879094, 1000) })),
        iter.next()
    );
    assert_eq!(None, iter.next());
}

#[test]
fn reset_idempotence() {
    // After a reset the encoder leaks no state: encoding y into the reused
    // buffer yields the same first bytes as encoding y alone into a fresh
    // buffer.
    let mut lpp = CayenneLPP::new(vec![0u8; 2 * LPP_TEMPERATURE_SIZE]);
    lpp.add_temperature(3, 272).unwrap();
    lpp.add_temperature(5, 255).unwrap();

    lpp.reset();
    assert_eq!(0, lpp.payload_slice().len());

    lpp.add_temperature(7, -123).unwrap();
    let reused: Vec<u8> = lpp.payload_slice().to_vec();

    let mut fresh = CayenneLPP::new(vec![0u8; LPP_TEMPERATURE_SIZE]);
    fresh.add_temperature(7, -123).unwrap();

    assert_eq!(fresh.payload_slice().to_vec(), reused);
}

#[test]
fn strict_vs_best_effort_divergence() {
    // One valid scalar followed by a header with an unknown type code: the
    // strict iterator reports the unknown code, the best-effort iterator
    // silently stops after the valid scalar.
    let bytes: Vec<u8> = vec![0x03, LPP_TEMPERATURE, 0x01, 0x10, 0x07, 0xAB];

    let mut strict = CayenneLPP::new(bytes.clone()).into_iter();
    assert_eq!(
        Some(Ok(CayenneLPPScalar { channel: 3, value: CayenneLPPValue::Temperature(272) })),
        strict.next()
    );
    assert_eq!(Some(Err(Error::UnhandledType(0xAB))), strict.next());
    assert_eq!(None, strict.next());

    let mut best_effort = CayenneLPP::new(bytes).into_infailable_iter();
    assert_eq!(
        Some(CayenneLPPScalar { channel: 3, value: CayenneLPPValue::Temperature(272) }),
        best_effort.next()
    );
    assert_eq!(None, best_effort.next());
    assert_eq!(None, best_effort.next());
}

#[test]
fn exhaustion_counts_encoded_scalars() {
    // Iterating a valid encoded buffer until the first None consumes
    // exactly the number of scalars that were encoded.
    let scalars = [
        CayenneLPPScalar { channel: 1, value: CayenneLPPValue::Switch(true) },
        CayenneLPPScalar { channel: 2, value: CayenneLPPValue::Luminosity(0x1234) },
        CayenneLPPScalar { channel: 3, value: CayenneLPPValue::GPS(-900000, 1800000, -1) },
        CayenneLPPScalar { channel: 4, value: CayenneLPPValue::Color(9, 8, 7) },
    ];
    let mut lpp = CayenneLPP::new(vec![0u8; 3 + 4 + 11 + 5]);
    for scalar in scalars.iter() {
        lpp.add_scalar(scalar).unwrap();
    }

    let mut iter = lpp.into_infailable_iter();
    let mut decoded: Vec<CayenneLPPScalar> = Vec::new();
    while let Some(scalar) = iter.next() {
        decoded.push(scalar);
    }
    assert_eq!(scalars.len(), decoded.len());
    assert_eq!(scalars.to_vec(), decoded);
}

#[test]
fn strict_iterator_buffer_underrun() {
    // A temperature header with only one body byte left: a BufferUnderrun,
    // and the error ends the sequence.
    let mut strict = CayenneLPP::new(vec![0x03, LPP_TEMPERATURE, 0x01]).into_iter();
    assert_eq!(Some(Err(Error::BufferUnderrun)), strict.next());
    assert_eq!(None, strict.next());
}

#[test]
fn strict_iterator_dangling_byte() {
    // A single dangling byte cannot hold the two-byte header: the sequence
    // ends cleanly.
    let mut strict = CayenneLPP::new(vec![0x03]).into_iter();
    assert_eq!(None, strict.next());
}

#[test]
fn strict_iterator_gps_out_of_range() {
    // A decoded latitude of 90.0001 degrees breaks the sanity bound and is
    // reported as OutOfRange.
    let mut lpp = CayenneLPP::new(vec![0u8; 11]);
    lpp.add_gps(1, 900001, 0, 0).unwrap();
    let mut strict = lpp.into_iter();
    assert_eq!(Some(Err(Error::OutOfRange)), strict.next());
    assert_eq!(None, strict.next());

    // The same for a longitude of -180.0001 degrees.
    let mut lpp = CayenneLPP::new(vec![0u8; 11]);
    lpp.add_gps(1, -900000, -1800001, 0).unwrap();
    let mut strict = lpp.into_iter();
    assert_eq!(Some(Err(Error::OutOfRange)), strict.next());
    assert_eq!(None, strict.next());
}

#[test]
fn negative_round_trip_temperature() {
    // Encoding -12.3 then -35.8 degrees C in 0.1 degree steps, and pulling
    // both back out through the strict iterator.
    let mut lpp = CayenneLPP::new(vec![0u8; 8]);
    lpp.add_temperature(6, -123).unwrap();
    lpp.add_temperature(2, -358).unwrap();

    let expected_bytes: [u8; 8] =
        [0x06, LPP_TEMPERATURE, 0xFF, 0x85, 0x02, LPP_TEMPERATURE, 0xFE, 0x9A];
    assert_eq!(expected_bytes, lpp.payload_slice());

    let mut iter = lpp.into_iter();
    assert_eq!(
        Some(Ok(CayenneLPPScalar { channel: 6, value: CayenneLPPValue::Temperature(-123) })),
        iter.next()
    );
    assert_eq!(
        Some(Ok(CayenneLPPScalar { channel: 2, value: CayenneLPPValue::Temperature(-358) })),
        iter.next()
    );
    assert_eq!(None, iter.next());
}

#[test]
fn voltage_out_of_range_keeps_payload() {
    // The encode-side OutOfRange leaves the buffer and cursor unchanged.
    let mut lpp = CayenneLPP::new(vec![0u8; 8]);
    lpp.add_voltage(3, 12345).unwrap();
    let before: Vec<u8> = lpp.payload_slice().to_vec();

    assert_eq!(Err(Error::OutOfRange), lpp.add_voltage(5, 0x10000));
    assert_eq!(before, lpp.payload_slice().to_vec());

    assert_eq!(Err(Error::OutOfRange), lpp.add_current(5, 70000));
    assert_eq!(before, lpp.payload_slice().to_vec());
}
