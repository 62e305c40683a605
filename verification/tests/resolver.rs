use rust_sdc_clients::vmapi::{resolve_disk_size, resolve_image, Disk};
use uuid::Uuid;

fn disk(number: u128, size: Option<i32>, image: Option<Uuid>) -> Disk {
    Disk {
        block_size: None,
        boot: number == 0,
        compression: None,
        image_name: None,
        image_size: None,
        image_uuid: image,
        media: String::from("disk"),
        model: String::from("virtio"),
        path: format!("/dev/zvol/rdsk/zones/disk{}", number),
        pci_slot: format!("0:4:{}", number),
        refreservation: None,
        size,
        uuid: Uuid::from_u128(0xd15c_0000 + number),
    }
}

#[test]
fn flexible_disk_size_takes_precedence_over_any_disk_list() {
    assert_eq!(resolve_disk_size(Some(40), &None), Some(40));
    assert_eq!(resolve_disk_size(Some(40), &Some(vec![])), Some(40));
    let one = Some(vec![disk(0, Some(10), None)]);
    assert_eq!(resolve_disk_size(Some(40), &one), Some(40));
    let two = Some(vec![disk(0, Some(10), None), disk(1, Some(20), None)]);
    assert_eq!(resolve_disk_size(Some(40), &two), Some(40));
}

#[test]
fn second_disk_gives_the_size_without_a_flexible_size() {
    let two = Some(vec![disk(0, Some(10), None), disk(1, Some(20), None)]);
    assert_eq!(resolve_disk_size(None, &two), Some(20));
    let three =
        Some(vec![disk(0, Some(10), None), disk(1, Some(20), None), disk(2, Some(30), None)]);
    assert_eq!(resolve_disk_size(None, &three), Some(20));
}

#[test]
fn single_disk_gives_no_size() {
    let one = Some(vec![disk(0, Some(10), None)]);
    assert_eq!(resolve_disk_size(None, &one), None);
}

#[test]
fn no_disks_give_no_size() {
    assert_eq!(resolve_disk_size(None, &None), None);
    assert_eq!(resolve_disk_size(None, &Some(vec![])), None);
}

#[test]
fn second_disk_without_a_size_gives_no_size() {
    let two = Some(vec![disk(0, Some(10), None), disk(1, None, None)]);
    assert_eq!(resolve_disk_size(None, &two), None);
}

#[test]
fn top_level_image_takes_precedence_over_the_disks() {
    let x = Uuid::from_u128(0xa);
    let y = Uuid::from_u128(0xb);
    let z = Uuid::from_u128(0xc);
    let disks = Some(vec![disk(0, Some(10), Some(y)), disk(1, Some(20), Some(z))]);
    assert_eq!(resolve_image(Some(x), &disks), Some(x));
    assert_eq!(resolve_image(Some(x), &None), Some(x));
    assert_eq!(resolve_image(Some(x), &Some(vec![])), Some(x));
}

#[test]
fn first_disk_gives_the_image_without_a_top_level_one() {
    let y = Uuid::from_u128(0xb);
    let z = Uuid::from_u128(0xc);
    let disks = Some(vec![disk(0, Some(10), Some(y)), disk(1, Some(20), Some(z))]);
    assert_eq!(resolve_image(None, &disks), Some(y));
    let one = Some(vec![disk(0, None, Some(z))]);
    assert_eq!(resolve_image(None, &one), Some(z));
}

#[test]
fn empty_or_absent_disk_list_resolves_no_image() {
    assert_eq!(resolve_image(None, &Some(vec![])), None);
    assert_eq!(resolve_image(None, &None), None);
}

#[test]
fn first_disk_without_an_image_resolves_no_image() {
    let z = Uuid::from_u128(0xc);
    let disks = Some(vec![disk(0, Some(10), None), disk(1, Some(20), Some(z))]);
    assert_eq!(resolve_image(None, &disks), None);
}
