use smw_patcher::archive::{get_patch_from_zip, PatchArchive};
use smw_patcher::patch::{
    output_name, run_on_archive, strip_copier_header, FailureKind, PatchOutcome,
};

fn chars(s: &str) -> Vec<char> {
    s.chars().collect()
}

fn make_zip(entries: &[(&str, &[u8])]) -> Vec<u8> {
    let mut w = zip::ZipWriter::new(std::io::Cursor::new(Vec::new()));
    let opts = zip::write::SimpleFileOptions::default();
    for (name, data) in entries {
        w.start_file(*name, opts).expect("start entry");
        std::io::Write::write_all(&mut w, data).expect("write entry");
    }
    w.finish().expect("finish archive").into_inner()
}

fn crc32(data: &[u8]) -> u32 {
    let mut crc: u32 = 0xffff_ffff;
    for &b in data {
        crc ^= b as u32;
        for _ in 0..8 {
            if crc & 1 != 0 {
                crc = (crc >> 1) ^ 0xedb8_8320;
            } else {
                crc >>= 1;
            }
        }
    }
    !crc
}

fn bps_varint(mut v: u64, out: &mut Vec<u8>) {
    loop {
        let x = (v & 0x7f) as u8;
        v >>= 7;
        if v == 0 {
            out.push(0x80 | x);
            break;
        }
        out.push(x);
        v -= 1;
    }
}

/// A minimal valid BPS patch with an empty source: the target bytes are
/// written out as one target-read action.
fn bps_from_nothing(target: &[u8]) -> Vec<u8> {
    let mut p: Vec<u8> = b"BPS1".to_vec();
    bps_varint(0, &mut p);
    bps_varint(target.len() as u64, &mut p);
    bps_varint(0, &mut p);
    bps_varint(((target.len() as u64 - 1) << 2) | 1, &mut p);
    p.extend_from_slice(target);
    p.extend_from_slice(&crc32(&[]).to_le_bytes());
    p.extend_from_slice(&crc32(target).to_le_bytes());
    let patch_crc = crc32(&p);
    p.extend_from_slice(&patch_crc.to_le_bytes());
    p
}

#[test]
fn run_succeeds_end_to_end() {
    let target = b"patched-output!!";
    let patch = bps_from_nothing(target);
    let archive = make_zip(&[("readme.txt", b"info"), ("hack.bps", &patch)]);
    match run_on_archive(archive, Vec::new(), None) {
        PatchOutcome::Success { output_name, output_bytes } => {
            assert_eq!(output_name, "hack.smc");
            assert_eq!(output_bytes, target.to_vec());
        },
        PatchOutcome::Failure { kind, detail } => {
            panic!("pipeline failed: {:?} ({})", kind, detail)
        },
    }
}

#[test]
fn run_without_payload_is_missing_payload() {
    let archive = make_zip(&[("readme.txt", b"info")]);
    match run_on_archive(archive, Vec::new(), None) {
        PatchOutcome::Failure { kind, detail } => {
            assert_eq!(kind, FailureKind::MissingPayload);
            assert_eq!(detail, "no patch entry in archive");
        },
        PatchOutcome::Success { .. } => panic!("no payload must not succeed"),
    }
}

#[test]
fn run_on_garbage_archive_is_archive_failure() {
    match run_on_archive(b"not a zip at all".to_vec(), Vec::new(), None) {
        PatchOutcome::Failure { kind, .. } => assert_eq!(kind, FailureKind::Archive),
        PatchOutcome::Success { .. } => panic!("garbage must not succeed"),
    }
}

#[test]
fn run_on_bad_patch_is_patch_apply_failure() {
    let archive = make_zip(&[("hack.bps", b"not a real patch")]);
    match run_on_archive(archive, Vec::new(), None) {
        PatchOutcome::Failure { kind, .. } => assert_eq!(kind, FailureKind::PatchApply),
        PatchOutcome::Success { .. } => panic!("a malformed patch must not succeed"),
    }
}

#[test]
fn run_twice_gives_byte_identical_output() {
    let target = b"deterministic-artifact";
    let patch = bps_from_nothing(target);
    let archive = make_zip(&[("hack.bps", &patch)]);
    let first = run_on_archive(archive.clone(), Vec::new(), None);
    let second = run_on_archive(archive, Vec::new(), None);
    match (first, second) {
        (
            PatchOutcome::Success { output_name: n1, output_bytes: b1 },
            PatchOutcome::Success { output_name: n2, output_bytes: b2 },
        ) => {
            assert_eq!(n1, n2);
            assert_eq!(b1, b2);
        },
        _ => panic!("both runs must succeed"),
    }
}

#[test]
fn run_honours_the_name_hint() {
    let patch = bps_from_nothing(b"x");
    let archive = make_zip(&[("hack.bps", &patch)]);
    match run_on_archive(archive, Vec::new(), Some(chars("renamed"))) {
        PatchOutcome::Success { output_name, .. } => assert_eq!(output_name, "renamed.smc"),
        PatchOutcome::Failure { kind, detail } => {
            panic!("pipeline failed: {:?} ({})", kind, detail)
        },
    }
}

#[test]
fn pipeline_composes_with_a_fake_apply_capability() {
    // The same steps as `run_on_archive`, with the opaque patch-apply
    // capability replaced by a deterministic fake: the output file's bytes
    // equal whatever the capability returns.
    let archive_bytes = make_zip(&[("readme.txt", b"info"), ("hack.bps", b"payload")]);
    let base = vec![7u8; 32768 + 512];
    let fake_apply = |patch: &[u8], base: &[u8]| -> Vec<u8> {
        let mut out = patch.to_vec();
        out.extend_from_slice(base);
        out
    };

    let mut archive = PatchArchive::open(archive_bytes).expect("valid archive");
    let payload = get_patch_from_zip(&mut archive, &chars("bps"))
        .expect("no read failure")
        .expect("payload present");
    let stripped = strip_copier_header(base.clone());
    assert_eq!(stripped, vec![7u8; 32768]);
    let output = fake_apply(&payload.data, &stripped);
    let name: String = output_name(&None, &payload.base_name).into_iter().collect();
    assert_eq!(name, "hack.smc");
    let mut expected = b"payload".to_vec();
    expected.extend_from_slice(&vec![7u8; 32768]);
    assert_eq!(output, expected);

    // Running the composition again gives byte-identical output.
    let mut archive2 = PatchArchive::open(make_zip(&[
        ("readme.txt", b"info"),
        ("hack.bps", b"payload"),
    ]))
    .expect("valid archive");
    let payload2 = get_patch_from_zip(&mut archive2, &chars("bps"))
        .expect("no read failure")
        .expect("payload present");
    let output2 = fake_apply(&payload2.data, &strip_copier_header(base));
    assert_eq!(output, output2);
}

#[test]
fn strip_copier_header_only_on_exact_offset_sizes() {
    let headered = vec![1u8; 32768 + 512];
    assert_eq!(strip_copier_header(headered).len(), 32768);
    let bare = vec![1u8; 32768];
    assert_eq!(strip_copier_header(bare.clone()), bare);
    let odd = vec![1u8; 1000];
    assert_eq!(strip_copier_header(odd.clone()), odd);
    let empty: Vec<u8> = Vec::new();
    assert_eq!(strip_copier_header(empty.clone()), empty);
}
