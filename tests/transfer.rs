use mtkport::error::Error;
use mtkport::transfer::{find_partition, PartitionDescriptor, Transfer};

/// Drives a transfer whose chunk primitive fails on chunk `fail_at`, if any;
/// returns the outcome, the chunk sizes moved and the progress reports.
fn drive(total: u64, chunk: u64, fail_at: Option<usize>) -> (Result<(), Error>, Vec<u64>, Vec<(u64, u64)>) {
    let mut t = Transfer::new(total, chunk);
    let mut sizes = Vec::new();
    let mut reports = Vec::new();
    while let Some(n) = t.next_chunk() {
        if fail_at == Some(sizes.len()) {
            let e = t.chunk_failed("stream closed".to_string());
            assert_eq!(t.next_chunk(), None);
            return (Err(e), sizes, reports);
        }
        sizes.push(n);
        reports.push(t.chunk_done());
    }
    (Ok(()), sizes, reports)
}

#[test]
fn transfer_even_chunks() {
    let (r, sizes, reports) = drive(4096, 1024, None);
    assert_eq!(r, Ok(()));
    assert_eq!(sizes, vec![1024, 1024, 1024, 1024]);
    assert_eq!(reports, vec![(1024, 4096), (2048, 4096), (3072, 4096), (4096, 4096)]);
}

#[test]
fn transfer_uneven_chunks() {
    let (r, sizes, reports) = drive(2500, 1000, None);
    assert_eq!(r, Ok(()));
    assert_eq!(sizes, vec![1000, 1000, 500]);
    assert_eq!(sizes.iter().sum::<u64>(), 2500);
    assert_eq!(reports.len(), 3);
    assert_eq!(*reports.last().unwrap(), (2500, 2500));
}

#[test]
fn transfer_empty_partition_reports_once() {
    let (r, sizes, reports) = drive(0, 512, None);
    assert_eq!(r, Ok(()));
    assert_eq!(sizes, vec![0]);
    assert_eq!(reports, vec![(0, 0)]);
}

#[test]
fn transfer_single_small_chunk() {
    let (_, sizes, reports) = drive(10, 4096, None);
    assert_eq!(sizes, vec![10]);
    assert_eq!(reports, vec![(10, 10)]);
}

#[test]
fn transfer_failure_stops_reports() {
    let (r, sizes, reports) = drive(5000, 1000, Some(2));
    assert_eq!(r, Err(Error::Io("stream closed".to_string())));
    assert_eq!(sizes, vec![1000, 1000]);
    assert_eq!(reports, vec![(1000, 5000), (2000, 5000)]);
}

#[test]
fn transfer_failure_on_first_chunk() {
    let (r, _, reports) = drive(5000, 1000, Some(0));
    assert!(r.is_err());
    assert!(reports.is_empty());
}

#[test]
fn partition_lookup() {
    let table = vec![
        PartitionDescriptor { name: "boot".to_string(), size: 0x2000 },
        PartitionDescriptor { name: "system".to_string(), size: 0x8000 },
        PartitionDescriptor { name: "boot".to_string(), size: 0x10 },
    ];
    assert_eq!(find_partition(&table, &"system".to_string()), Ok(table[1].clone()));
    assert_eq!(find_partition(&table, &"boot".to_string()), Ok(table[0].clone()));
    assert_eq!(find_partition(&table, &"vendor".to_string()), Err(Error::PartitionNotFound));
    assert_eq!(find_partition(&Vec::new(), &"boot".to_string()), Err(Error::PartitionNotFound));
}
