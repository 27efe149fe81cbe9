//! Tests for the control-channel records, their byte encodings, and the
//! snapshot naming.

use borgify::btrfs::{
    create_request_bytes, decode_subvol_info, destroy_request_bytes, is_btrfs_f_type,
    is_subvolume_root, writable_flags, Error as BtrfsError,
};
use borgify::naming::snapshot_name;

#[test]
fn create_request_layout() {
    let name = b"abc".to_vec();
    let bytes = create_request_bytes(5, &name);
    assert_eq!(bytes.len(), 4096);
    // Source descriptor, little-endian, at offset 0.
    assert_eq!(&bytes[0..8], &[5, 0, 0, 0, 0, 0, 0, 0]);
    // Transaction id is zero.
    assert_eq!(&bytes[8..16], &[0; 8]);
    // The read-only flag (bit 1).
    assert_eq!(&bytes[16..24], &[2, 0, 0, 0, 0, 0, 0, 0]);
    // Reserved words are zero.
    assert_eq!(&bytes[24..56], &[0; 32]);
    // The name, NUL-padded, fills the identifier buffer.
    assert_eq!(&bytes[56..59], b"abc");
    assert!(bytes[59..].iter().all(|&b| b == 0));
}

#[test]
fn destroy_request_layout() {
    let bytes = destroy_request_bytes(0x1234);
    assert_eq!(bytes.len(), 4096);
    // No descriptor: the target is addressed by identifier.
    assert_eq!(&bytes[0..8], &[0; 8]);
    // The address-by-identifier flag (bit 4).
    assert_eq!(&bytes[16..24], &[16, 0, 0, 0, 0, 0, 0, 0]);
    // The identifier, little-endian, in the identifier buffer.
    assert_eq!(&bytes[56..64], &[0x34, 0x12, 0, 0, 0, 0, 0, 0]);
    assert!(bytes[64..].iter().all(|&b| b == 0));
}

#[test]
fn decode_subvol_info_reads_fields() {
    let mut buf = vec![0u8; 504];
    // treeid at offset 0.
    buf[0] = 0x2a;
    // name at offset 8.
    buf[8] = b'x';
    buf[9] = b'y';
    // generation at offset 280.
    buf[280] = 7;
    // flags at offset 288.
    buf[288] = 2;
    // ctime seconds at offset 376, nanoseconds at 384.
    buf[376] = 9;
    buf[384] = 3;
    let info = decode_subvol_info(&buf);
    assert_eq!(info.treeid, 0x2a);
    assert_eq!(&info.name[0..2], b"xy");
    assert_eq!(info.name.len(), 256);
    assert_eq!(info.generation, 7);
    assert_eq!(info.flags, 2);
    assert_eq!(info.ctime.sec, 9);
    assert_eq!(info.ctime.nsec, 3);
    assert_eq!(info.uuid.len(), 16);
}

#[test]
fn writable_flags_clears_only_the_readonly_bit() {
    assert_eq!(writable_flags(0b11), 0b01);
    assert_eq!(writable_flags(0b10), 0);
    assert_eq!(writable_flags(0), 0);
    assert_eq!(writable_flags(u64::MAX), u64::MAX & !2);
}

#[test]
fn filesystem_and_inode_predicates() {
    assert!(is_btrfs_f_type(0x9123683e));
    assert!(!is_btrfs_f_type(0x1234));
    assert!(is_subvolume_root(true, 256));
    assert!(!is_subvolume_root(false, 256));
    assert!(!is_subvolume_root(true, 2));
}

#[test]
fn btrfs_error_messages() {
    assert_eq!(BtrfsError::NotBtrfs.message(), "not a btrfs filesystem");
    assert_eq!(BtrfsError::NotSubvolumeRoot.message(), "not the root of a subvolume");
    assert_eq!(BtrfsError::Syscall(13).message(), "syscall failed");
}

#[test]
fn snapshot_name_is_the_digest_of_seed_and_counter() {
    // SHA-256 of eight zero bytes: the empty seed with counter zero.
    let name = snapshot_name(b"", 0);
    assert_eq!(
        name,
        b"af5570f5a1810b7af78caf4bc70a660f0df51e42baf91d4de5b2328de0e83dfc".to_vec()
    );
    let name = snapshot_name(b"/srv/data", 0);
    assert_eq!(
        name,
        b"e2e108cc1190c47bb7554653d8fc8e8a0b52fbf90edecb499c550e55aae5212a".to_vec()
    );
    let name = snapshot_name(b"/srv/data", 1);
    assert_eq!(
        name,
        b"bc8d8d835572b4bebf42ff7ad85f1ee81beb4f5743b046bb6c44669cfd8b64dd".to_vec()
    );
}

#[test]
fn snapshot_names_are_printable_and_bounded() {
    let name = snapshot_name(b"some seed", 42);
    assert_eq!(name.len(), 64);
    assert!(name.iter().all(|&b| (b'0'..=b'9').contains(&b) || (b'a'..=b'f').contains(&b)));
}
