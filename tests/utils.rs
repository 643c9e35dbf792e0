use topiks::offset_progress_bar;
use topiks::protocol_responses::metadata_response::PartitionMetadata;
use topiks::sorting::bytes_le;
use topiks::sorting::sort_by_key;
use topiks::sorting::sort_partitions;
use topiks::utils::bool_yes_no;
use topiks::utils::pad_right;
use topiks::utils::to_hex_array;
use topiks::utils::Flatten;
use topiks::utils::PagedVec;
use topiks::utils::VecToCSV;

#[test]
fn yes_no_and_padding() {
    assert_eq!("Yes", bool_yes_no(true));
    assert_eq!("No", bool_yes_no(false));
    assert_eq!("ab   ", pad_right(&"ab".to_string(), 5));
    assert_eq!("abcdef", pad_right(&"abcdef".to_string(), 3));
    assert_eq!("", pad_right(&String::new(), 0));
}

#[test]
fn hex_and_csv() {
    assert_eq!(vec!["0x00", "0x0A", "0xFF"], to_hex_array(&vec![0, 10, 255]));
    assert_eq!("1,-20,300", vec![1, -20, 300].as_csv());
    assert_eq!("-2147483648", vec![i32::MIN].as_csv());
    assert_eq!("", Vec::<i32>::new().as_csv());
}

#[test]
fn flatten_and_pages() {
    assert_eq!(vec![1, 2, 3], vec![vec![1], vec![], vec![2, 3]].flatten());
    let v = vec![0, 1, 2, 3, 4, 5, 6];
    let paged = PagedVec::from(&v, 3);
    let (place, items) = paged.page(4).unwrap();
    assert_eq!(1, place);
    assert_eq!(vec![&3, &4, &5], items);
    let (place, items) = paged.page(6).unwrap();
    assert_eq!(0, place);
    assert_eq!(vec![&6], items);
    assert!(paged.page(9).is_none());
}

#[test]
fn progress_bar_blocks() {
    assert_eq!("[░░░░]", offset_progress_bar::new(0, 100, 4));
    assert_eq!("[████]", offset_progress_bar::new(100, 100, 4));
    assert_eq!("[██▌░]", offset_progress_bar::new(62, 100, 4));
    assert_eq!("[█▏░░]", offset_progress_bar::new(26, 100, 4));
    assert_eq!("[░░░░]", offset_progress_bar::new(-5, 0, 4));
    assert_eq!("[]", offset_progress_bar::new(3, 10, 0));
    assert_eq!("[██]", offset_progress_bar::new(i64::MAX - 1, i64::MAX, 2));
    assert_eq!("[█▉]", offset_progress_bar::new(i64::MAX / 16 * 15, i64::MAX / 16 * 16, 2));
    assert_eq!(2002, offset_progress_bar::new(5_000_000_000_000, 10_000_000_000_000, 2000).chars().count());
}

#[test]
fn keyed_values_sort_in_dictionary_order() {
    let pairs = vec![
        (b"b".to_vec(), 1),
        (b"ab".to_vec(), 2),
        (b"a".to_vec(), 3),
        (b"".to_vec(), 4),
        (b"b".to_vec(), 5),
    ];
    let sorted: Vec<i32> = sort_by_key(pairs).into_iter().map(|(_, v)| v).collect();
    assert_eq!(4, sorted[0]);
    assert_eq!(vec![3, 2], sorted[1..3].to_vec());
    assert_eq!(vec![1, 5], sorted[3..].to_vec());
    assert!(bytes_le(b"a", b"ab"));
    assert!(!bytes_le(b"b", b"ab"));
    assert!(bytes_le(b"", b""));
}

#[test]
fn partitions_sort_by_id() {
    let p = |id: i32| PartitionMetadata { error_code: 0, partition: id, leader: 0, replicas: vec![], isr: vec![], offline_replicas: vec![] };
    let ids: Vec<i32> = sort_partitions(vec![p(3), p(-1), p(2), p(2)]).iter().map(|x| x.partition).collect();
    assert_eq!(vec![-1, 2, 2, 3], ids);
}
