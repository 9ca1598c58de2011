use coub_clip::{patch_chunks, patch_payload, Patcher};

fn patched_whole(payload: &[u8]) -> Vec<u8> {
    let mut v = payload.to_vec();
    patch_payload(&mut v);
    v
}

#[test]
fn whole_payload_zeroes_first_two_bytes_only() {
    let mut v = vec![0x47u8, 0x40, 3, 4, 5];
    patch_payload(&mut v);
    assert_eq!(v, vec![0, 0, 3, 4, 5]);
}

#[test]
fn whole_payload_short_inputs() {
    let mut empty: Vec<u8> = vec![];
    patch_payload(&mut empty);
    assert_eq!(empty, Vec::<u8>::new());

    let mut one = vec![7u8];
    patch_payload(&mut one);
    assert_eq!(one, vec![0u8]);

    let mut two = vec![7u8, 9];
    patch_payload(&mut two);
    assert_eq!(two, vec![0u8, 0]);
}

#[test]
fn chunked_download_matches_whole_payload_patch() {
    let payload = vec![0xABu8, 0xCD, 10, 20, 30, 40];
    let splits: Vec<Vec<Vec<u8>>> = vec![
        vec![payload.clone()],
        vec![vec![0xAB], vec![0xCD, 10, 20, 30, 40]],
        vec![vec![], vec![0xAB], vec![], vec![0xCD, 10], vec![20, 30, 40]],
        vec![vec![0xAB, 0xCD], vec![10, 20], vec![30, 40]],
        vec![vec![], vec![], vec![0xAB, 0xCD, 10, 20, 30, 40]],
    ];
    for chunks in splits {
        assert_eq!(patch_chunks(&chunks), patched_whole(&payload));
    }
}

#[test]
fn patcher_tracks_defect_across_chunk_boundaries() {
    let mut p = Patcher::new();
    let first = p.process_chunk(&vec![0x11u8]);
    assert_eq!(first, vec![0u8]);
    let second = p.process_chunk(&vec![0x22u8, 0x33, 0x44]);
    assert_eq!(second, vec![0u8, 0x33, 0x44]);
    let third = p.process_chunk(&vec![0x55u8]);
    assert_eq!(third, vec![0x55u8]);
}

#[test]
fn patcher_with_empty_first_chunk_still_patches_stream_start() {
    let mut p = Patcher::new();
    assert_eq!(p.process_chunk(&vec![]), Vec::<u8>::new());
    assert_eq!(p.process_chunk(&vec![0x99u8, 0x98, 0x97]), vec![0u8, 0, 0x97]);
}

#[test]
fn round_trip_preserves_everything_past_the_marker() {
    let payload: Vec<u8> = (0u8..=200).collect();
    let out = patch_chunks(&vec![payload[..3].to_vec(), payload[3..].to_vec()]);
    assert_eq!(out.len(), payload.len());
    assert_eq!(out[0], 0);
    assert_eq!(out[1], 0);
    assert_eq!(&out[2..], &payload[2..]);
}
