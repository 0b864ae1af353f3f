use lidar_gen::config::{FileType, Lidar};
use lidar_gen::encoder::{encode_record, Encoder, EncoderState};
use lidar_gen::error::GenError;
use lidar_gen::format::{record_length, resolve_point_format};
use lidar_gen::generate::Position;
use lidar_gen::synth::{
    assemble, classify, draw_point, synthesize, Classification, PointRecord, ScanDirection, POINT_SOURCE_ID,
};
use lidar_gen::terrain::{Hill, TerrainModel};
use rand::rngs::StdRng;
use rand::SeedableRng;

fn config(n: usize, format: u8) -> Lidar {
    Lidar {
        file_type: FileType::Las,
        num_points: n,
        las_version: 4,
        las_format: format,
        ground: 900_000,
        surface: false,
        hills: None,
        xmin: 0,
        xmax: 1_000_000,
        ymin: 0,
        ymax: 1_000_000,
        zmin: 0,
        zmax: 100_000,
    }
}

fn run(cfg: &Lidar, seed: u64) -> (lidar_gen::encoder::ContainerHeader, Vec<u8>, Vec<Position>) {
    let mut rng = StdRng::seed_from_u64(seed);
    let ps = cfg.draw_positions(&mut rng);
    let (h, b) = cfg.generate(&mut rng, &ps).unwrap();
    (h, b, ps)
}

#[test]
fn capability_table_for_every_format() {
    // (gps, color, nir, waveform, extended, record length)
    let expected = [
        (false, false, false, false, false, 20),
        (true, false, false, false, false, 28),
        (false, true, false, false, false, 26),
        (true, true, false, false, false, 34),
        (true, false, false, true, false, 57),
        (true, true, false, true, false, 63),
        (true, false, false, false, true, 30),
        (true, true, false, false, true, 36),
        (true, true, true, false, true, 38),
        (true, false, false, true, true, 59),
        (true, true, true, true, true, 67),
    ];
    for (id, e) in expected.iter().enumerate() {
        let c = resolve_point_format(id as u8).unwrap();
        assert_eq!(c, resolve_point_format(id as u8).unwrap());
        assert_eq!((c.has_gps_time, c.has_color, c.has_nir, c.has_waveform, c.is_extended), (e.0, e.1, e.2, e.3, e.4));
        assert_eq!(c.extra_bytes, 0);
        assert_eq!(record_length(&c), e.5);
    }
}

#[test]
fn invalid_point_format_is_rejected() {
    assert_eq!(resolve_point_format(11), Err(GenError::InvalidPointFormat));
    assert_eq!(resolve_point_format(200), Err(GenError::InvalidPointFormat));
    let cfg = config(10, 11);
    let mut rng = StdRng::seed_from_u64(3);
    let ps = config(10, 1).draw_positions(&mut rng);
    assert_eq!(cfg.generate(&mut rng, &ps).err(), Some(GenError::InvalidPointFormat));
    assert!(Encoder::new(4, 11).is_err());
}

#[test]
fn configuration_errors_are_distinct() {
    let mut c = config(5, 1);
    c.las_version = 5;
    assert_eq!(c.validate(), Err(GenError::InvalidFormatVersion));
    let mut c = config(5, 1);
    c.ground = 1_000_001;
    assert_eq!(c.validate(), Err(GenError::InvalidGroundFraction));
    let mut c = config(5, 1);
    c.xmin = 10;
    c.xmax = 5;
    assert_eq!(c.validate(), Err(GenError::DegenerateExtent));
    let mut c = config(5, 1);
    c.surface = true;
    c.ymax = 0;
    assert_eq!(c.validate(), Err(GenError::DegenerateExtent));
    let mut c = config(5, 1);
    c.ymax = 0;
    assert!(c.validate().is_ok());
}

#[test]
fn return_numbers_stay_in_family_range() {
    let mut rng = StdRng::seed_from_u64(11);
    for format in 0..=10u8 {
        let cfg = config(0, format);
        let caps = cfg.validate().unwrap();
        let limit = if format <= 5 { 8 } else { 16 };
        let mut widest = 0;
        for _ in 0..2000 {
            let r = synthesize(&cfg, &caps, &mut rng, 1, 2, 3);
            assert!(r.return_number <= r.number_of_returns);
            assert!(r.number_of_returns < limit);
            widest = widest.max(r.number_of_returns);
            assert_eq!(r.scanner_channel, 0);
            assert_eq!(r.point_source_id, POINT_SOURCE_ID);
            assert!(r.scan_angle >= -15000 && r.scan_angle <= 15000);
        }
        assert_eq!(widest, limit - 1);
    }
}

#[test]
fn positions_stay_inside_extents() {
    let mut cfg = config(3000, 1);
    cfg.xmin = -500;
    cfg.xmax = 700;
    cfg.zmin = 10;
    cfg.zmax = 12;
    let mut rng = StdRng::seed_from_u64(5);
    let ps = cfg.draw_positions(&mut rng);
    assert_eq!(ps.len(), 3000);
    for p in &ps {
        assert!(p.x >= -500 && p.x <= 700);
        assert!(p.y >= 0 && p.y <= 1_000_000);
        assert!(p.z >= 10 && p.z <= 12);
    }
    assert!(ps.iter().any(|p| p.z == 10) && ps.iter().any(|p| p.z == 12));
    let (h, _, _) = run(&cfg, 9);
    let b = h.bounds.unwrap();
    assert!(b.min_x >= -500 && b.max_x <= 700 && b.min_z >= 10 && b.max_z <= 12);
}

#[test]
fn elevation_is_repeatable() {
    let t = TerrainModel {
        base: 50_000,
        z_var: 50_000,
        hills: vec![Hill { center_x: 0, center_y: 0, height: 20_000, spread: 40_000 }],
    };
    let bumps = vec![7_500i64];
    let a = t.elevation(-321, &bumps);
    let b = t.elevation(-321, &bumps);
    assert_eq!(a, b);
    assert_eq!(a, 50_000 - 321 + 50_000 + 7_500);
}

#[test]
fn optional_fields_follow_format() {
    for format in 0..=10u8 {
        let cfg = config(7, format);
        let caps = cfg.validate().unwrap();
        let mut rng = StdRng::seed_from_u64(format as u64);
        for _ in 0..50 {
            let r = synthesize(&cfg, &caps, &mut rng, 0, 0, 0);
            assert_eq!(r.gps_time.is_some(), caps.has_gps_time);
            assert_eq!(r.color.is_some(), caps.has_color);
            assert_eq!(r.nir.is_some(), caps.has_nir);
            assert_eq!(r.waveform.is_some(), caps.has_waveform);
            assert!(r.extra_bytes.is_empty());
            let mut out = Vec::new();
            encode_record(&caps, &r, &mut out);
            assert_eq!(out.len(), record_length(&caps));
        }
        let (h, b, _) = run(&cfg, 1);
        assert_eq!(b.len(), 7 * record_length(&caps));
        assert_eq!(h.record_length as usize, record_length(&caps));
    }
}

#[test]
fn header_count_equals_requested() {
    for n in [1usize, 2, 17, 1000] {
        let (h, b, ps) = run(&config(n, 3), n as u64);
        assert_eq!(ps.len(), n);
        assert_eq!(h.point_count, n as u64);
        assert_eq!(b.len(), n * 34);
    }
}

fn ground_share(cfg: &Lidar, seed: u64) -> f64 {
    let caps = cfg.validate().unwrap();
    let mut rng = StdRng::seed_from_u64(seed);
    let mut ground = 0usize;
    for _ in 0..cfg.num_points {
        if synthesize(cfg, &caps, &mut rng, 0, 0, 0).classification == Classification::Ground {
            ground += 1;
        }
    }
    ground as f64 / cfg.num_points as f64
}

#[test]
fn ground_share_is_at_least_configured() {
    let mut cfg = config(20_000, 1);
    for g in [0u32, 250_000, 900_000] {
        cfg.ground = g;
        let share = ground_share(&cfg, 77);
        let expect = g as f64 / 1e6 + (1.0 - g as f64 / 1e6) / 10.0;
        assert!(share >= g as f64 / 1e6 - 0.01);
        assert!((share - expect).abs() < 0.02);
    }
    cfg.ground = 1_000_000;
    assert_eq!(ground_share(&cfg, 2), 1.0);
}

#[test]
fn hundred_points_format_one() {
    let cfg = config(100, 1);
    let (h, b, ps) = run(&cfg, 2024);
    assert_eq!(h.point_count, 100);
    assert_eq!((h.version_major, h.version_minor, h.point_format), (1, 4, 1));
    assert_eq!(b.len(), 100 * 28);
    for p in &ps {
        assert!(p.x >= 0 && p.x <= 1_000_000 && p.y >= 0 && p.y <= 1_000_000);
        assert!(p.z >= 0 && p.z <= 100_000);
    }
    let ground = (0..100).filter(|i| b[i * 28 + 15] & 0x1f == 2).count();
    assert!(ground >= 75 && ground <= 100, "ground {}", ground);
}

#[test]
fn format_six_and_eight_fields() {
    let cfg = config(40, 6);
    let caps = cfg.validate().unwrap();
    assert!(caps.has_gps_time && !caps.has_color && !caps.has_nir && !caps.has_waveform);
    let mut rng = StdRng::seed_from_u64(6);
    for _ in 0..40 {
        let r = synthesize(&cfg, &caps, &mut rng, 0, 0, 0);
        assert!(r.gps_time.is_some() && r.waveform.is_none());
    }
    let cfg = config(40, 8);
    let caps = cfg.validate().unwrap();
    let mut rng = StdRng::seed_from_u64(8);
    for _ in 0..40 {
        let r = synthesize(&cfg, &caps, &mut rng, 0, 0, 0);
        assert!(r.gps_time.is_some() && r.color.is_some() && r.nir.is_some());
        assert!(r.waveform.is_none());
    }
    let (_, b, _) = run(&cfg, 8);
    assert_eq!(b.len(), 40 * 38);
}

#[test]
fn hill_center_raises_elevation() {
    let mut cfg = config(0, 1);
    cfg.surface = true;
    cfg.hills = Some(3);
    let mut rng = StdRng::seed_from_u64(31);
    let n = cfg.hill_count(&mut rng);
    assert_eq!(n, 3);
    let t = cfg.build_terrain(&mut rng, n);
    assert_eq!(t.hills.len(), 3);
    assert_eq!(t.base + t.z_var, 100_000);
    let flat = t.elevation(0, &vec![0, 0, 0]);
    for (i, h) in t.hills.iter().enumerate() {
        assert!(h.height >= 5000 && h.height < 50_000);
        assert!(h.spread >= 30_000 && h.spread < 500_000);
        let mut bumps = vec![0i64; 3];
        bumps[i] = h.height;
        assert_eq!(t.elevation(0, &bumps) - flat, h.height);
    }
}

#[test]
fn zero_points_give_empty_container() {
    let cfg = config(0, 1);
    let (h, b, ps) = run(&cfg, 0);
    assert!(ps.is_empty());
    assert_eq!(h.point_count, 0);
    assert!(h.bounds.is_none());
    assert!(b.is_empty());
}

#[test]
fn drawn_hill_count_and_small_extent_fallback() {
    let mut cfg = config(0, 1);
    cfg.surface = true;
    let mut rng = StdRng::seed_from_u64(4);
    for _ in 0..200 {
        let n = cfg.hill_count(&mut rng);
        assert!(n >= 2 && n < 20);
    }
    cfg.xmax = 40_000;
    cfg.zmax = 4_000;
    for _ in 0..50 {
        assert_eq!(cfg.hill_count(&mut rng), 2);
    }
    let t = cfg.build_terrain(&mut rng, 4);
    for h in &t.hills {
        assert_eq!(h.height, 5000);
        assert_eq!(h.spread, 30_000);
        assert!(h.center_x >= 0 && h.center_x < 40_000);
    }
}

#[test]
fn encoder_state_machine() {
    let mut enc = Encoder::new(2, 0).unwrap();
    assert_eq!(Encoder::new(5, 0).err(), Some(GenError::InvalidFormatVersion));
    let caps = enc.capabilities();
    let cfg = config(0, 0);
    let mut rng = StdRng::seed_from_u64(1);
    let r = synthesize(&cfg, &caps, &mut rng, -4, 9, 2);
    assert_eq!(enc.write(&r), Ok(()));
    let s = synthesize(&cfg, &caps, &mut rng, 6, -3, 1);
    assert_eq!(enc.write(&s), Ok(()));
    let h = enc.finalize().unwrap();
    assert_eq!(h.point_count, 2);
    assert_eq!((h.version_minor, h.point_format, h.record_length), (2, 0, 20));
    let b = h.bounds.unwrap();
    assert_eq!((b.min_x, b.max_x, b.min_y, b.max_y, b.min_z, b.max_z), (-4, 6, -3, 9, 1, 2));
    assert_eq!(enc.write(&r), Err(GenError::InvalidEncoderState));
    assert_eq!(enc.finalize(), Err(GenError::InvalidEncoderState));
    assert_eq!(enc.stream().len(), 40);
    let _ = EncoderState::Finalized;
}

#[test]
fn legacy_record_bytes() {
    let r = PointRecord {
        x: 0x01020304,
        y: -1,
        z: 7,
        intensity: 0xabcd,
        return_number: 1,
        number_of_returns: 3,
        scan_direction: ScanDirection::RightToLeft,
        is_edge_of_flight_line: true,
        classification: Classification::Ground,
        is_synthetic: true,
        is_key_point: false,
        is_withheld: true,
        is_overlap: false,
        scanner_channel: 0,
        scan_angle: -15000,
        user_data: 9,
        point_source_id: 0x1234,
        gps_time: Some(0x3FF0_0000_0000_0000 - 1),
        color: None,
        waveform: None,
        nir: None,
        extra_bytes: vec![],
    };
    let caps = resolve_point_format(1).unwrap();
    let mut out = vec![0xee];
    encode_record(&caps, &r, &mut out);
    assert_eq!(
        out,
        vec![
            0xee, 4, 3, 2, 1, 255, 255, 255, 255, 7, 0, 0, 0, 0xcd, 0xab,
            1 + 24 + 128,
            2 + 32 + 128,
            (-90i8) as u8,
            9,
            0x34, 0x12,
            0xff, 0xff, 0xff, 0xff, 0xff, 0xff, 0xef, 0x3f,
        ]
    );
    let caps6 = resolve_point_format(6).unwrap();
    let mut out = Vec::new();
    encode_record(&caps6, &r, &mut out);
    assert_eq!(out.len(), 30);
    assert_eq!(&out[14..20], &[1 + 48, 1 + 4 + 128, 2, 9, 0x68, 0xc5]);
    let mut l = r.clone();
    l.scan_direction = ScanDirection::LeftToRight;
    l.is_overlap = true;
    let mut out = Vec::new();
    encode_record(&caps, &l, &mut out);
    assert_eq!(&out[14..16], &[1 + 24 + 64 + 128, 12 + 32 + 128]);
    let mut out = Vec::new();
    encode_record(&caps6, &l, &mut out);
    assert_eq!(&out[14..17], &[1 + 48, 1 + 4 + 8 + 64 + 128, 2]);
}

#[test]
fn file_type_compression() {
    assert!(FileType::Laz.is_compressed());
    assert!(!FileType::Las.is_compressed());
    assert!(!FileType::Gz.is_compressed());
    assert_eq!(Classification::Water.code(), 9);
    assert_eq!(lidar_gen::synth::class_vec().len(), 10);
}

#[test]
fn file_type_from_extension() {
    assert_eq!(FileType::from_extension("las"), Some(FileType::Las));
    assert_eq!(FileType::from_extension("LaZ"), Some(FileType::Laz));
    assert_eq!(FileType::from_extension("XYZ"), Some(FileType::Txt));
    assert_eq!(FileType::from_extension("txt"), Some(FileType::Txt));
    assert_eq!(FileType::from_extension("gz"), Some(FileType::Gz));
    assert_eq!(FileType::from_extension("lass"), None);
    assert_eq!(FileType::from_extension(""), None);
}

#[test]
fn default_file_type_is_las() {
    assert_eq!(FileType::default(), FileType::Las);
}

#[test]
fn shares_cover_every_point() {
    for (n, w) in [(0usize, 1usize), (10, 3), (7, 8), (1000, 16), (5, 5)] {
        let s = lidar_gen::generate::worker_shares(n, w);
        assert_eq!(s.len(), w);
        assert_eq!(s.iter().sum::<usize>(), n);
        assert!(s.iter().all(|&k| k == n / w || k == n / w + 1));
    }
    assert_eq!(lidar_gen::generate::worker_shares(10, 3), vec![4, 3, 3]);
}

#[test]
fn split_runs_write_the_requested_count() {
    let cfg = config(1001, 7);
    let caps = cfg.validate().unwrap();
    let mut rng = StdRng::seed_from_u64(12);
    let ps = cfg.draw_positions(&mut rng);
    for workers in [1usize, 2, 3, 8] {
        let shares = lidar_gen::generate::worker_shares(ps.len(), workers);
        let mut records = Vec::new();
        let mut start = 0;
        for (k, share) in shares.iter().enumerate() {
            let mut wrng = StdRng::seed_from_u64(k as u64);
            records.extend(cfg.synthesize_all(&caps, &mut wrng, &ps[start..start + share]));
            start += share;
        }
        for (r, p) in records.iter().zip(ps.iter()) {
            assert_eq!((r.x, r.y, r.z), (p.x, p.y, p.z));
        }
        let (h, b) = cfg.encode_all(&records).unwrap();
        assert_eq!(h.point_count, 1001);
        assert_eq!(b.len(), 1001 * 36);
    }
    let mut bad = cfg;
    bad.las_version = 9;
    assert_eq!(bad.encode_all(&Vec::new()).err(), Some(GenError::InvalidFormatVersion));
}

#[test]
fn classify_picks_ground_or_listed_class() {
    for pick in 0..10usize {
        assert_eq!(classify(true, pick), Classification::Ground);
        assert_eq!(classify(false, pick), lidar_gen::synth::class_vec()[pick]);
    }
    assert_eq!(classify(false, 0), Classification::CreatedNeverClassified);
    assert_eq!(classify(false, 9), Classification::Water);
}

#[test]
fn assemble_keeps_draws_and_gates_optional_fields() {
    let cfg = config(1, 8);
    let caps = cfg.validate().unwrap();
    let mut rng = StdRng::seed_from_u64(21);
    let d = draw_point(&cfg, &caps, &mut rng);
    let r = assemble(&caps, 5, 6, 7, d.clone());
    assert_eq!((r.x, r.y, r.z), (5, 6, 7));
    assert_eq!(r.intensity, d.intensity);
    assert_eq!(r.is_overlap, d.is_overlap);
    assert_eq!(r.gps_time, Some(d.gps_time));
    assert_eq!(r.color, Some(d.color));
    assert_eq!(r.nir, Some(d.nir));
    assert_eq!(r.waveform, None);
    assert_eq!(r.scan_direction == ScanDirection::RightToLeft, d.right_to_left);
    let caps0 = resolve_point_format(0).unwrap();
    let r0 = assemble(&caps0, 0, 0, 0, d);
    assert!(r0.gps_time.is_none() && r0.color.is_none() && r0.nir.is_none());
}

#[test]
fn overlap_flag_rate_is_about_one_in_ten() {
    let cfg = config(0, 6);
    let caps = cfg.validate().unwrap();
    let mut rng = StdRng::seed_from_u64(99);
    let n = 20_000;
    let hits = (0..n).filter(|_| synthesize(&cfg, &caps, &mut rng, 0, 0, 0).is_overlap).count();
    let share = hits as f64 / n as f64;
    assert!((share - 0.1).abs() < 0.01, "overlap share {}", share);
}

#[test]
fn waveform_offsets_cover_the_whole_range() {
    let cfg = config(0, 4);
    let caps = cfg.validate().unwrap();
    let mut rng = StdRng::seed_from_u64(40);
    let high = (0..200)
        .filter(|_| synthesize(&cfg, &caps, &mut rng, 0, 0, 0).waveform.unwrap().byte_offset_to_waveform_data > i64::MAX as u64)
        .count();
    assert!(high > 50 && high < 150, "high offsets {}", high);
}
