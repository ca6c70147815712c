use drop_downloader::digest::checksum_of;
use drop_downloader::download_logic::DropWriter;

#[test]
fn checksum_of_nothing() {
    assert_eq!(checksum_of(b""), "d41d8cd98f00b204e9800998ecf8427e");
}

#[test]
fn checksum_of_the_alphabet() {
    assert_eq!(
        checksum_of(b"abcdefghijklmnopqrstuvwxyz"),
        "c3fcd3d76192e4007dfb496cca67e13b"
    );
}

#[test]
fn checksum_is_lower_case_hex_of_sixteen_bytes() {
    let checksum = checksum_of(b"hello world");
    assert_eq!(checksum, "5eb63bbbe01eeed093cb22bb8f5acdc3");
    assert_eq!(checksum.len(), 32);
    assert!(checksum
        .chars()
        .all(|c| c.is_ascii_digit() || ('a'..='f').contains(&c)));
}

#[test]
fn checksum_agrees_with_the_hasher_and_the_encoder() {
    let data: Vec<u8> = (0..=255u8).collect();
    let expected = hex::encode(md5::compute(&data).0);
    assert_eq!(checksum_of(&data), expected);
    assert_ne!(checksum_of(&data), hex::encode(&data));
}

#[test]
fn writer_digests_what_it_is_handed_in_order() {
    let mut writer = DropWriter::new();
    writer.write(b"abcdefghij");
    writer.write(b"");
    writer.write(b"klmnopqrstuvwxyz");
    assert_eq!(
        hex::encode(writer.finish()),
        "c3fcd3d76192e4007dfb496cca67e13b"
    );

    let mut swapped = DropWriter::new();
    swapped.write(b"klmnopqrstuvwxyz");
    swapped.write(b"abcdefghij");
    assert_ne!(
        hex::encode(swapped.finish()),
        "c3fcd3d76192e4007dfb496cca67e13b"
    );
}

#[test]
fn empty_writer_has_the_digest_of_nothing() {
    assert_eq!(
        hex::encode(DropWriter::new().finish()),
        "d41d8cd98f00b204e9800998ecf8427e"
    );
}
