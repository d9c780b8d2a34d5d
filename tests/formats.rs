use imgbytes::{
    choose_format, decode_data, determine_format, encode_data, format_from_hint, pack, Command,
    DecodeError, FileFormat, UnpackError,
};

#[test]
fn format_priority() {
    assert_eq!(choose_format(Some(FileFormat::Pgm), Some(FileFormat::Png)), FileFormat::Pgm);
    assert_eq!(choose_format(None, Some(FileFormat::Pgm)), FileFormat::Pgm);
    assert_eq!(choose_format(None, None), FileFormat::Png);
}

#[test]
fn format_from_path() {
    let pgm = Some(String::from("out.pgm"));
    let png = Some(String::from("out.png"));
    let other = Some(String::from("out.txt"));
    assert_eq!(determine_format(&pgm, None), FileFormat::Pgm);
    assert_eq!(determine_format(&png, None), FileFormat::Png);
    assert_eq!(determine_format(&other, None), FileFormat::Png);
    assert_eq!(determine_format(&None, None), FileFormat::Png);
    assert_eq!(determine_format(&png, Some(FileFormat::Pgm)), FileFormat::Pgm);
    assert_eq!(determine_format(&None, Some(FileFormat::Pgm)), FileFormat::Pgm);
    let upper = Some(String::from("dir.png/OUT.PAM"));
    assert_eq!(determine_format(&upper, None), FileFormat::Pgm);
    let hidden = Some(String::from("dir/.pgm"));
    assert_eq!(determine_format(&hidden, None), FileFormat::Png);
    let jpeg = Some(String::from("photo.jpg"));
    assert_eq!(determine_format(&jpeg, None), FileFormat::Png);
}

#[test]
fn format_from_extension_hint() {
    assert_eq!(format_from_hint(None, Some("PgM")), FileFormat::Pgm);
    assert_eq!(format_from_hint(None, Some("ppm")), FileFormat::Pgm);
    assert_eq!(format_from_hint(None, Some("Png")), FileFormat::Png);
    assert_eq!(format_from_hint(None, Some("gif")), FileFormat::Png);
    assert_eq!(format_from_hint(None, None), FileFormat::Png);
    assert_eq!(format_from_hint(Some(FileFormat::Png), Some("pgm")), FileFormat::Png);
}

#[test]
fn command_format_follows_its_file() {
    let encode = Command::Encode {
        input: Some(String::from("data.pgm")),
        output: Some(String::from("image.png")),
        format: None,
    };
    assert_eq!(encode.image_format(), FileFormat::Png);
    let decode = Command::Decode {
        input: Some(String::from("image.pgm")),
        output: Some(String::from("data.png")),
        format: None,
    };
    assert_eq!(decode.image_format(), FileFormat::Pgm);
}

#[test]
fn png_round_trip() {
    let payload = b"some bytes to hide".to_vec();
    let file = encode_data(payload.clone(), FileFormat::Png).unwrap();
    assert_eq!(&file[1..4], b"PNG");
    assert_ne!(file, pack(payload.clone()).pixels);
    assert_eq!(decode_data(&file, FileFormat::Png).unwrap(), payload);
}

#[test]
fn pgm_round_trip() {
    let payload: Vec<u8> = (0..=255u8).collect();
    let file = encode_data(payload.clone(), FileFormat::Pgm).unwrap();
    assert_eq!(&file[0..2], b"P7");
    assert_eq!(decode_data(&file, FileFormat::Pgm).unwrap(), payload);
}

#[test]
fn pam_file_is_header_then_plane() {
    let file = encode_data(b"hi".to_vec(), FileFormat::Pgm).unwrap();
    let mut expected =
        b"P7\nWIDTH 4\nHEIGHT 4\nDEPTH 1\nMAXVAL 255\nTUPLTYPE GRAYSCALE\nENDHDR\n".to_vec();
    expected.extend_from_slice(&[0x68, 0x69, 0, 0, 0, 0, 0, 0, 0x02, 0, 0, 0, 0, 0, 0, 0]);
    assert_eq!(file, expected);

    let file = encode_data(vec![7u8; 100], FileFormat::Pgm).unwrap();
    let header = b"P7\nWIDTH 11\nHEIGHT 11\nDEPTH 1\nMAXVAL 255\nTUPLTYPE GRAYSCALE\nENDHDR\n";
    assert_eq!(&file[..header.len()], &header[..]);
    assert_eq!(file.len(), header.len() + 121);
}

#[test]
fn empty_payload_round_trips_through_png() {
    let file = encode_data(Vec::new(), FileFormat::Png).unwrap();
    assert_eq!(decode_data(&file, FileFormat::Png).unwrap(), Vec::<u8>::new());
}

#[test]
fn garbage_is_not_an_image() {
    let result = decode_data(&b"not an image".to_vec(), FileFormat::Png);
    assert!(matches!(result, Err(DecodeError::Image(_))));
}

#[test]
fn corrupt_trailer_in_image_is_rejected() {
    let mut file = encode_data(b"hi".to_vec(), FileFormat::Pgm).unwrap();
    let trailer = file.len() - 8;
    assert_eq!(file[trailer], 2);
    file[trailer] = 0x20;
    let result = decode_data(&file, FileFormat::Pgm);
    assert!(matches!(result, Err(DecodeError::Unpack(UnpackError::CorruptTrailer))));
}

#[test]
fn oversized_pnm_header_is_refused() {
    let mut file = vec![b'P', b'5'];
    file.extend_from_slice(b"\n65536 65536\n255\n");
    file.extend_from_slice(&[0u8; 16]);
    let result = decode_data(&file, FileFormat::Pgm);
    assert!(matches!(result, Err(DecodeError::Image(_))));
}

fn crc32(bytes: &[u8]) -> u32 {
    let mut crc = 0xFFFF_FFFFu32;
    for &b in bytes {
        crc ^= b as u32;
        for _ in 0..8 {
            let mask = (crc & 1).wrapping_neg();
            crc = (crc >> 1) ^ (0xEDB8_8320 & mask);
        }
    }
    !crc
}

fn png_header_only(width: u32, height: u32, color_type: u8) -> Vec<u8> {
    let mut file = vec![137u8, 80, 78, 71, 13, 10, 26, 10];
    let mut chunk = b"IHDR".to_vec();
    chunk.extend_from_slice(&width.to_be_bytes());
    chunk.extend_from_slice(&height.to_be_bytes());
    chunk.extend_from_slice(&[8, color_type, 0, 0, 0]);
    file.extend_from_slice(&13u32.to_be_bytes());
    file.extend_from_slice(&chunk);
    file.extend_from_slice(&crc32(&chunk).to_be_bytes());
    file
}

#[test]
fn oversized_png_header_is_refused() {
    let file = png_header_only(1 << 31, 1 << 30, 6);
    let result = decode_data(&file, FileFormat::Png);
    assert!(matches!(result, Err(DecodeError::Image(_))));

    let file = png_header_only(16384, 1, 0);
    let result = decode_data(&file, FileFormat::Png);
    assert!(matches!(result, Err(DecodeError::Image(_))));
}

#[test]
fn largest_decoded_side_is_accepted() {
    let payload = vec![0xA5u8; 16383 * 16383 - 8];
    let file = encode_data(payload.clone(), FileFormat::Pgm).unwrap();
    assert_eq!(decode_data(&file, FileFormat::Pgm).unwrap(), payload);
}
