use novavm::storage::compression::{compress_cluster, decompress_cluster, DEFAULT_COMPRESSION_LEVEL};
use novavm::storage::disk::{names_a_path, qemu_img_candidates, remove_disk, DiskFormat, DiskImage, DEFAULT_CLUSTER_SIZE};
use novavm::storage::encryption::{decrypt_cluster, encrypt_cluster, EncryptionKey};
use novavm::storage::snapshot::SnapshotManager;
use novavm::storage::StorageError;

#[test]
fn test_compress_decompress() {
    let data = b"Hello, NovaDisk compression! ".repeat(100);
    let compressed = compress_cluster(&data, DEFAULT_COMPRESSION_LEVEL).unwrap();
    assert!(compressed.len() < data.len(), "Should compress well");
    let decompressed = decompress_cluster(&compressed, data.len() * 2).unwrap();
    assert_eq!(decompressed, data);
}

#[test]
fn decompressing_garbage_is_a_compression_error() {
    let r = decompress_cluster(b"not a zstd frame", 1024);
    assert!(matches!(r, Err(StorageError::Compression(_))));
}

#[test]
fn test_roundtrip_encryption() {
    let key = EncryptionKey::generate();
    let plaintext = b"Hello, NovaDisk! This is a test cluster payload.";
    let (ciphertext, nonce) = encrypt_cluster(plaintext, &key).unwrap();
    assert_ne!(ciphertext, plaintext);
    let decrypted = decrypt_cluster(&ciphertext, &key, &nonce).unwrap();
    assert_eq!(decrypted, plaintext);
}

#[test]
fn test_wrong_key_fails() {
    let key1 = EncryptionKey::generate();
    let key2 = EncryptionKey::generate();
    let plaintext = b"Secret data";
    let (ciphertext, nonce) = encrypt_cluster(plaintext, &key1).unwrap();
    assert!(decrypt_cluster(&ciphertext, &key2, &nonce).is_err());
}

#[test]
fn test_key_zeroed_on_drop() {
    let key = EncryptionKey::generate();
    let key_bytes = key.0;
    drop(key);
    assert_eq!(key_bytes.len(), 32);
}

#[test]
fn wrong_key_error_text() {
    let key1 = EncryptionKey::from_bytes([1u8; 32]);
    let key2 = EncryptionKey::from_bytes([2u8; 32]);
    let (ciphertext, nonce) = encrypt_cluster(b"abc", &key1).unwrap();
    match decrypt_cluster(&ciphertext, &key2, &nonce) {
        Err(StorageError::Encryption(m)) => assert!(m.starts_with("Decryption failed: ")),
        _ => panic!("decryption under the wrong key succeeded"),
    }
}

#[test]
fn ciphertext_carries_tag() {
    let key = EncryptionKey::from_bytes([7u8; 32]);
    let (ciphertext, _nonce) = encrypt_cluster(b"0123456789", &key).unwrap();
    assert_eq!(ciphertext.len(), 10 + 16);
}

#[test]
fn test_create_disk() {
    let m = DiskImage::new_metadata("test.novadisk".to_owned(), "test-disk".to_owned(), 20 * 1024 * 1024 * 1024, false, true);
    assert_eq!(m.format, DiskFormat::NovaDisk);
    assert_eq!(m.allocated_clusters, 0);
    assert!(m.thin_provisioned);
    assert!(m.total_clusters > 0);
}

#[test]
fn cluster_count_rounds_up() {
    let m = DiskImage::new_metadata("a".to_owned(), "a".to_owned(), DEFAULT_CLUSTER_SIZE as u64 + 1, false, false);
    assert_eq!(m.total_clusters, 2);
    let m = DiskImage::new_metadata("b".to_owned(), "b".to_owned(), 20 * 1024 * 1024 * 1024, false, false);
    assert_eq!(m.total_clusters, 20 * 1024);
    assert_eq!(m.cluster_size_bytes, DEFAULT_CLUSTER_SIZE);
}

#[test]
fn qemu_img_command_line() {
    let args = DiskImage::qemu_img_args("/vms/d.qcow2", 20 * 1024 * 1024 * 1024);
    assert_eq!(args, vec!["create", "-f", "qcow2", "-o", "lazy_refcounts=on", "/vms/d.qcow2", "20G"]);
    let small = DiskImage::qemu_img_args("x", 1000);
    assert_eq!(small.last().unwrap(), "1G");
}

#[test]
fn test_take_and_list_snapshots() {
    let disk_id = uuid::Uuid::new_v4().as_u128();
    let mut mgr = SnapshotManager::new(disk_id);
    let id1 = mgr.take_snapshot("snap-1".to_owned(), None, "/tmp/snaps").unwrap();
    let id2 = mgr.take_snapshot("snap-2".to_owned(), None, "/tmp/snaps").unwrap();
    let list = mgr.list_snapshots();
    assert_eq!(list.len(), 2);
    assert_eq!(list[0].id, id1);
    assert_eq!(list[1].id, id2);
}

#[test]
fn test_revert_to_snapshot() {
    let disk_id = uuid::Uuid::new_v4().as_u128();
    let mut mgr = SnapshotManager::new(disk_id);
    let id1 = mgr.take_snapshot("snap-1".to_owned(), None, "/tmp/snaps").unwrap();
    let _id2 = mgr.take_snapshot("snap-2".to_owned(), None, "/tmp/snaps").unwrap();
    mgr.revert_to(id1).unwrap();
    assert_eq!(mgr.active_snapshot_id(), Some(id1));
}

#[test]
fn new_snapshot_is_child_of_active() {
    let mut mgr = SnapshotManager::new(1);
    let id1 = mgr.take_snapshot("a".to_owned(), None, "/tmp").unwrap();
    let id2 = mgr.take_snapshot("b".to_owned(), Some("second".to_owned()), "/tmp").unwrap();
    let list = mgr.list_snapshots();
    assert_eq!(list[0].parent_id, None);
    assert_eq!(list[1].parent_id, Some(id1));
    assert_eq!(mgr.active_snapshot_id(), Some(id2));
}

#[test]
fn reverting_to_unknown_snapshot_fails() {
    let mut mgr = SnapshotManager::new(1);
    match mgr.revert_to(77) {
        Err(e) => {
            assert!(matches!(e, StorageError::SnapshotNotFound(77)));
            assert_eq!(e.to_string(), "Snapshot not found: 00000000-0000-0000-0000-00000000004d");
        }
        Ok(()) => panic!("unknown snapshot accepted"),
    }
}

#[test]
fn deleting_a_snapshot_removes_it() {
    let mut mgr = SnapshotManager::new(1);
    let id1 = mgr.take_snapshot("a".to_owned(), None, "/tmp").unwrap();
    let _id2 = mgr.take_snapshot("b".to_owned(), None, "/tmp").unwrap();
    mgr.delete_snapshot(id1).unwrap();
    assert_eq!(mgr.list_snapshots().len(), 1);
    assert!(mgr.delete_snapshot(id1).is_err());
}

#[test]
fn storage_error_texts() {
    let e = StorageError::InsufficientSpace { needed_bytes: 2048, available_bytes: 100 };
    assert_eq!(e.to_string(), "Insufficient disk space: need 2048 bytes, have 100");
    assert_eq!(StorageError::DiskNotFound("d1".to_owned()).to_string(), "Disk not found: d1");
}

#[test]
fn imported_image_metadata() {
    let m = DiskImage::imported_metadata("/isos/ubuntu.ISO".to_owned(), None, Some("ubuntu".to_owned()), Some("ISO"), Some(3 * 1024 * 1024 + 1));
    assert_eq!(m.name, "ubuntu");
    assert_eq!(m.format, DiskFormat::Raw);
    assert_eq!(m.total_clusters, 4);
    assert_eq!(m.allocated_clusters, 4);
    let m = DiskImage::imported_metadata("d.VHDX".to_owned(), Some("win".to_owned()), None, Some("VHDX"), None);
    assert_eq!(m.name, "win");
    assert_eq!(m.format, DiskFormat::Vhd);
    assert_eq!(m.virtual_size_bytes, 10 * 1024 * 1024 * 1024);
    let m = DiskImage::imported_metadata("noext".to_owned(), None, None, None, Some(0));
    assert_eq!(m.name, "imported-disk");
    assert_eq!(m.format, DiskFormat::Raw);
    assert_eq!(m.total_clusters, 0);
}

#[test]
fn import_reads_stem_and_extension() {
    let m = DiskImage::import("/vms/disk1.qcow2".to_owned(), None, Some(1024));
    assert_eq!(m.name, "disk1");
    assert_eq!(m.format, DiskFormat::Qcow2);
    assert_eq!(m.path.as_deref(), Some("/vms/disk1.qcow2"));
    let m = DiskImage::import("/vms/.hidden".to_owned(), None, None);
    assert_eq!(m.name, ".hidden");
    assert_eq!(m.format, DiskFormat::Raw);
    let m = DiskImage::import("archive.tar.VMDK".to_owned(), None, None);
    assert_eq!(m.name, "archive.tar");
    assert_eq!(m.format, DiskFormat::Vmdk);
}

#[test]
fn removing_disk_records() {
    let a = DiskImage::new_metadata("a".to_owned(), "a".to_owned(), 1, false, false);
    let b = DiskImage::new_metadata("b".to_owned(), "b".to_owned(), 1, false, false);
    let (ida, idb) = (a.id, b.id);
    let mut disks = vec![a, b];
    let removed = remove_disk(&mut disks, idb).unwrap();
    assert_eq!(removed.id, idb);
    assert_eq!(disks.len(), 1);
    assert_eq!(disks[0].id, ida);
    assert!(remove_disk(&mut disks, idb).is_none());
    assert_eq!(disks.len(), 1);
}

#[test]
fn sidecar_sits_beside_the_image() {
    assert_eq!(DiskImage::sidecar_path("/tmp/x/test.novadisk"), "/tmp/x/test.novadisk.meta");
    assert_eq!(DiskImage::sidecar_path("/vms/plain"), "/vms/plain.novadisk.meta");
    assert_eq!(DiskImage::sidecar_path("disk.img.qcow2"), "disk.img.novadisk.meta");
    assert_eq!(DiskImage::sidecar_path(r"C:\vms\win.vmdk"), r"C:\vms\win.novadisk.meta");
}

#[test]
fn qemu_img_is_searched_in_order() {
    let c = qemu_img_candidates();
    assert_eq!(c.len(), 6);
    assert_eq!(c[0], r"C:\Program Files\qemu\qemu-img.exe");
    assert_eq!(c[4], "qemu-img.exe");
    assert_eq!(c[5], "qemu-img");
    assert!(names_a_path(&c[0]));
    assert!(!names_a_path(&c[5]));
    assert!(names_a_path("/usr/bin/qemu-img"));
}

#[test]
fn encrypted_cluster_carries_a_tag() {
    let key = EncryptionKey::from_bytes([7u8; 32]);
    let (c, _) = encrypt_cluster(b"hello cluster", &key).unwrap();
    assert_eq!(c.len(), b"hello cluster".len() + 16);
    let (e, _) = encrypt_cluster(&[], &key).unwrap();
    assert_eq!(e.len(), 16);
    assert!(compress_cluster(&[], DEFAULT_COMPRESSION_LEVEL).is_ok());
    assert!(compress_cluster(&[0u8; 4096], 99).is_ok());
}
