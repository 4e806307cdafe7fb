use qoi::{ColorChannel, ColorSpace, Error, Header};

#[test]
fn header_to_bytes() {
    let header = Header::new(1024, 512, ColorChannel::Rgb, ColorSpace::AllLinear);

    assert_eq!(
        header.as_bytes(),
        [0x71, 0x6f, 0x69, 0x66, 0x00, 0x00, 0x04, 0x00, 0x00, 0x00, 0x02, 0x00, 0x03, 0x01]
    );
}

#[test]
fn bytes_to_header() {
    let bytes = [
        0x71, 0x6f, 0x69, 0x66, 0, 0, 0x04, 0x01, 0, 0, 0x02, 0, 4, 1,
    ];

    assert!(matches!(
        Header::try_from_bytes(&bytes),
        Ok(Header {
            width: 1025,
            height: 512,
            channels: ColorChannel::Rgba,
            color_space: ColorSpace::AllLinear,
        })
    ));
}

#[test]
fn bytes_to_header_invalid_size() {
    let bytes = [0x71, 0x6f, 0x69, 0x66, 0, 0, 0x04, 0x01, 0];

    assert!(matches!(
        Header::try_from_bytes(&bytes),
        Err(Error::InvalidHeaderSize(9))
    ));
}

#[test]
fn bytes_to_header_invalid_magic() {
    let bytes = [
        0x70, 0x6f, 0x69, 0x66, 0, 0, 0x04, 0x01, 0, 0, 0x02, 0, 9, 1,
    ];

    assert!(matches!(
        Header::try_from_bytes(&bytes),
        Err(Error::InvalidMagic([0x70, 0x6f, 0x69, 0x66]))
    ));
}

#[test]
fn bytes_to_header_invalid_channels() {
    let bytes = [
        0x71, 0x6f, 0x69, 0x66, 0, 0, 0x04, 0x01, 0, 0, 0x02, 0, 9, 1,
    ];

    assert!(matches!(
        Header::try_from_bytes(&bytes),
        Err(Error::InvalidChannelNumber(9))
    ));
}

#[test]
fn bytes_to_header_invalid_colorspace() {
    let bytes = [
        0x71, 0x6f, 0x69, 0x66, 0, 0, 0x04, 0x01, 0, 0, 0x02, 0, 3, 4,
    ];

    assert!(matches!(
        Header::try_from_bytes(&bytes),
        Err(Error::InvalidColorspace(4))
    ));
}

#[test]
fn header_round_trips_through_bytes() {
    let cases = [
        Header::new(0, 0, ColorChannel::Rgb, ColorSpace::Srgb),
        Header::new(1, 0xffff_ffff, ColorChannel::Rgb, ColorSpace::AllLinear),
        Header::new(0xffff_ffff, 1, ColorChannel::Rgba, ColorSpace::Srgb),
        Header::new(1920, 1080, ColorChannel::Rgba, ColorSpace::AllLinear),
    ];
    for header in cases {
        let bytes = header.as_bytes();
        let parsed = Header::try_from_bytes(&bytes);
        assert!(matches!(parsed, Ok(h) if h == header));
    }
}

#[test]
fn every_corrupted_magic_byte_is_rejected() {
    let good = Header::new(7, 9, ColorChannel::Rgb, ColorSpace::Srgb).as_bytes();
    for i in 0..4 {
        let mut bad = good;
        bad[i] ^= 0xff;
        assert!(matches!(
            Header::try_from_bytes(&bad),
            Err(Error::InvalidMagic(_))
        ));
    }
}
