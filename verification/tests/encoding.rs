use qoi::{encode, ColorSpace, Error, Pixel, VecWriter};

#[test]
fn can_encode_rgb() {
    let pixels = [
        Pixel::rgb(100, 100, 100),
        Pixel::rgb(200, 200, 200),
        Pixel::rgb(100, 101, 100),
    ];
    let width = 3;
    let height = 1;
    let color_space = ColorSpace::AllLinear;

    let mut buf = VecWriter::new();

    let result = encode(&mut buf, &pixels, width, height, color_space);

    assert!(matches!(result, Ok(34)), "result unmatched: {result:?}");

    assert_eq!(
        buf.into_vec(),
        [
            0x71, 0x6f, 0x69, 0x66, 0x00, 0x00, 0x00, 0x03, 0x00, 0x00, 0x00, 0x01, 0x03, 0x01,
            0xfe, 0x64, 0x64, 0x64, 0xfe, 0xc8, 0xc8, 0xc8, 0xfe, 0x64, 0x65, 0x64, 0x00, 0x00,
            0x00, 0x00, 0x00, 0x00, 0x00, 0x01
        ],
    );
}

#[test]
fn can_encode_rgba() {
    let pixels = [
        Pixel::rgba(100, 100, 100, 200),
        Pixel::rgba(200, 200, 200, 100),
        Pixel::rgba(100, 101, 100, 255),
    ];
    let width = 3;
    let height = 1;
    let color_space = ColorSpace::AllLinear;

    let mut buf = VecWriter::new();

    let result = encode(&mut buf, &pixels, width, height, color_space);

    assert!(matches!(result, Ok(37)), "result unmatched: {result:?}");

    assert_eq!(
        buf.into_vec(),
        [
            0x71, 0x6f, 0x69, 0x66, 0x00, 0x00, 0x00, 0x03, 0x00, 0x00, 0x00, 0x01, 0x04, 0x01,
            0xff, 0x64, 0x64, 0x64, 0xc8, 0xff, 0xc8, 0xc8, 0xc8, 0x64, 0xff, 0x64, 0x65, 0x64,
            0xff, 0x00, 0x00, 0x00, 0x00, 0x00, 0x00, 0x00, 0x01
        ],
    );
}

#[test]
fn can_encode_mixed_rgba() {
    let pixels = [
        Pixel::rgba(100, 100, 100, 200),
        Pixel::rgba(200, 200, 200, 100),
        Pixel::rgba(100, 101, 100, 100),
        Pixel::rgba(100, 101, 100, 255),
    ];
    let width = 4;
    let height = 1;
    let color_space = ColorSpace::Srgb;

    let mut buf = VecWriter::new();

    let result = encode(&mut buf, &pixels, width, height, color_space);

    assert!(matches!(result, Ok(41)), "result unmatched: {result:?}");

    assert_eq!(
        buf.into_vec(),
        [
            0x71, 0x6f, 0x69, 0x66, 0x00, 0x00, 0x00, 0x04, 0x00, 0x00, 0x00, 0x01, 0x04, 0x00,
            0xff, 0x64, 0x64, 0x64, 0xc8, 0xff, 0xc8, 0xc8, 0xc8, 0x64, 0xfe, 0x64, 0x65, 0x64,
            0xff, 0x64, 0x65, 0x64, 0xff, 0x00, 0x00, 0x00, 0x00, 0x00, 0x00, 0x00, 0x01
        ],
    );
}

#[test]
fn can_encode_index() {
    let pixels = [
        Pixel::rgb(100, 100, 100),
        Pixel::rgb(200, 200, 200),
        Pixel::rgb(100, 100, 100),
        Pixel::rgb(0, 0, 0),
        Pixel::rgb(200, 200, 200),
        Pixel::rgb(0, 0, 0),
    ];
    let width = 3;
    let height = 2;
    let color_space = ColorSpace::AllLinear;

    let mut buf = VecWriter::new();

    let result = encode(&mut buf, &pixels, width, height, color_space);

    assert!(matches!(result, Ok(37)), "result unmatched: {result:?}");

    assert_eq!(
        buf.into_vec(),
        [
            0x71, 0x6f, 0x69, 0x66, 0x00, 0x00, 0x00, 0x03, 0x00, 0x00, 0x00, 0x02, 0x03, 0x01,
            0xfe, 0x64, 0x64, 0x64, 0xfe, 0xc8, 0xc8, 0xc8, 0x11, 0xfe, 0x00, 0x00, 0x00, 0x2d,
            0x35, 0x00, 0x00, 0x00, 0x00, 0x00, 0x00, 0x00, 0x01
        ],
    );
}

#[test]
fn can_encode_without_repeating_index() {
    let pixels = [
        Pixel::rgba(100, 100, 100, 100),
        Pixel::rgba(200, 200, 200, 255),
        Pixel::rgba(100, 100, 100, 100),
        Pixel::rgba(100, 100, 100, 100),
        Pixel::rgba(100, 100, 100, 100),
        Pixel::rgba(100, 100, 100, 100),
        Pixel::rgba(100, 100, 100, 100),
        Pixel::rgba(100, 100, 100, 100),
        Pixel::rgba(100, 100, 100, 100),
    ];
    let width = 3;
    let height = 3;
    let color_space = ColorSpace::AllLinear;

    let mut buf = VecWriter::new();

    let result = encode(&mut buf, &pixels, width, height, color_space);

    assert!(matches!(result, Ok(34)), "result unmatched: {result:?}");

    assert_eq!(
        buf.into_vec(),
        [
            0x71, 0x6f, 0x69, 0x66, 0x00, 0x00, 0x00, 0x03, 0x00, 0x00, 0x00, 0x03, 0x04, 0x01,
            0xff, 0x64, 0x64, 0x64, 0x64, 0xff, 0xc8, 0xc8, 0xc8, 0xff, 0x28, 0xc5, 0x00, 0x00,
            0x00, 0x00, 0x00, 0x00, 0x00, 0x01
        ],
    );
}

#[test]
fn can_encode_diff() {
    let pixels = [
        Pixel::rgb(1, 1, 1),
        Pixel::rgb(2, 2, 2),
        Pixel::rgb(0, 0, 0),
        Pixel::rgb(255, 255, 255),
    ];
    let width = 2;
    let height = 2;
    let color_space = ColorSpace::AllLinear;

    let mut buf = VecWriter::new();

    let result = encode(&mut buf, &pixels, width, height, color_space);

    assert!(matches!(result, Ok(26)), "result unmatched: {result:?}");

    assert_eq!(
        buf.into_vec(),
        [
            0x71, 0x6f, 0x69, 0x66, 0x00, 0x00, 0x00, 0x02, 0x00, 0x00, 0x00, 0x02, 0x03, 0x01,
            0x7f, 0x7f, 0x40, 0x55, 0x00, 0x00, 0x00, 0x00, 0x00, 0x00, 0x00, 0x01
        ],
    );
}

#[test]
fn can_encode_luma() {
    let pixels = [
        Pixel::rgb(25, 30, 35),
        Pixel::rgb(20, 15, 3),
        Pixel::rgb(36, 29, 17),
        Pixel::rgb(33, 30, 25),
    ];
    let width = 2;
    let height = 2;
    let color_space = ColorSpace::AllLinear;

    let mut buf = VecWriter::new();

    let result = encode(&mut buf, &pixels, width, height, color_space);

    assert!(matches!(result, Ok(32)), "result unmatched: {result:?}");

    assert_eq!(
        buf.into_vec(),
        [
            0x71, 0x6f, 0x69, 0x66, 0x00, 0x00, 0x00, 0x02, 0x00, 0x00, 0x00, 0x02, 0x03, 0x01,
            0xbe, 0x3d, 0xfe, 0x14, 0x0f, 0x03, 0xae, 0xa8, 0xa1, 0x4f, 0x00, 0x00, 0x00, 0x00,
            0x00, 0x00, 0x00, 0x01
        ],
    );
}

#[test]
fn can_encode_run() {
    let pixels = [Pixel::rgb(127, 127, 127); 20];
    let width = 5;
    let height = 4;
    let color_space = ColorSpace::AllLinear;

    let mut buf = VecWriter::new();

    let result = encode(&mut buf, &pixels, width, height, color_space);

    assert!(matches!(result, Ok(27)), "result unmatched: {result:?}");

    assert_eq!(
        buf.into_vec(),
        [
            0x71, 0x6f, 0x69, 0x66, 0x00, 0x00, 0x00, 0x05, 0x00, 0x00, 0x00, 0x04, 0x03, 0x01,
            0xfe, 0x7f, 0x7f, 0x7f, 0xd2, 0x00, 0x00, 0x00, 0x00, 0x00, 0x00, 0x00, 0x01
        ],
    );
}

#[test]
fn encoding_twice_gives_identical_bytes() {
    let pixels = [
        Pixel::rgba(7, 12, 200, 31),
        Pixel::rgba(7, 12, 200, 31),
        Pixel::rgba(9, 13, 201, 31),
        Pixel::rgba(250, 3, 17, 255),
    ];

    let mut first = VecWriter::new();
    let mut second = VecWriter::new();

    let a = encode(&mut first, &pixels, 2, 2, ColorSpace::Srgb);
    let b = encode(&mut second, &pixels, 2, 2, ColorSpace::Srgb);

    assert!(a.is_ok());
    assert_eq!(a.unwrap(), b.unwrap());
    assert_eq!(first.into_vec(), second.into_vec());
}

#[test]
fn alpha_change_emits_full_rgba_opcode() {
    // Identical RGB channels, only alpha changes: the transition must take
    // the five-byte RGBA opcode, not a diff, luma or index opcode.
    let pixels = [Pixel::rgba(10, 10, 10, 255), Pixel::rgba(10, 10, 10, 128)];
    let width = 2;
    let height = 1;

    let mut buf = VecWriter::new();

    let result = encode(&mut buf, &pixels, width, height, ColorSpace::Srgb);

    assert!(matches!(result, Ok(29)), "result unmatched: {result:?}");

    assert_eq!(
        buf.into_vec(),
        [
            0x71, 0x6f, 0x69, 0x66, 0x00, 0x00, 0x00, 0x02, 0x00, 0x00, 0x00, 0x01, 0x04, 0x00,
            0xaa, 0x88, 0xff, 0x0a, 0x0a, 0x0a, 0x80, 0x00, 0x00, 0x00, 0x00, 0x00, 0x00, 0x00,
            0x01
        ],
    );
}

#[test]
fn run_of_exactly_62_flushes_and_restarts() {
    // 1 luma-coded pixel followed by a run of 63: the run flushes once it
    // reaches 62 (opcode 0xfd) and the single leftover repeat becomes a new
    // run of 1 (opcode 0xc0).
    let pixels = [Pixel::rgb(5, 5, 5); 64];
    let width = 8;
    let height = 8;

    let mut buf = VecWriter::new();

    let result = encode(&mut buf, &pixels, width, height, ColorSpace::AllLinear);

    assert!(matches!(result, Ok(26)), "result unmatched: {result:?}");

    assert_eq!(
        buf.into_vec(),
        [
            0x71, 0x6f, 0x69, 0x66, 0x00, 0x00, 0x00, 0x08, 0x00, 0x00, 0x00, 0x08, 0x03, 0x01,
            0xa5, 0x88, 0xfd, 0xc0, 0x00, 0x00, 0x00, 0x00, 0x00, 0x00, 0x00, 0x01
        ],
    );
}

#[test]
fn mismatched_buffer_length_fails_before_writing() {
    let pixels = [Pixel::rgb(1, 2, 3), Pixel::rgb(4, 5, 6)];

    let mut buf = VecWriter::new();

    let result = encode(&mut buf, &pixels, 3, 1, ColorSpace::AllLinear);

    assert!(matches!(
        result,
        Err(Error::UnmatchedDataSize { data_size: 2, header_size: 3 })
    ));
    assert_eq!(buf.into_vec(), Vec::<u8>::new());
}

#[test]
fn mismatched_buffer_length_fails_for_rgba_too() {
    let pixels = [Pixel::rgba(1, 2, 3, 4)];

    let mut buf = VecWriter::new();

    let result = encode(&mut buf, &pixels, 0, 7, ColorSpace::Srgb);

    assert!(matches!(
        result,
        Err(Error::UnmatchedDataSize { data_size: 1, header_size: 0 })
    ));
    assert_eq!(buf.into_vec(), Vec::<u8>::new());
}
