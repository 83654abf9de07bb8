use ssimulacra2_rs::aggregate::ScoreRecord;
use ssimulacra2_rs::aggregate::ScoreSeries;
use ssimulacra2_rs::csv::CsvRow;
use ssimulacra2_rs::csv::parse_csv;
use ssimulacra2_rs::csv::scores_to_csv;

fn rec(frame_index: usize, score: f64) -> ScoreRecord {
    ScoreRecord { frame_index, score_bits: score.to_bits() }
}

#[test]
fn series_sorts_records_by_frame_index() {
    let mut s = ScoreSeries::new();
    s.insert(30, 81.5f64.to_bits());
    s.insert(10, 79.25f64.to_bits());
    s.insert(20, 80.0f64.to_bits());
    let frames: Vec<usize> = s.records.iter().map(|r| r.frame_index).collect();
    assert_eq!(frames, vec![10, 20, 30]);
    assert_eq!(s.len(), 3);
    assert_eq!(f64::from_bits(s.records[0].score_bits), 79.25);
}

#[test]
fn series_replaces_a_duplicate_frame_index() {
    let mut s = ScoreSeries::new();
    s.insert(5, 10.0f64.to_bits());
    s.insert(5, 20.0f64.to_bits());
    assert_eq!(s.len(), 1);
    assert_eq!(f64::from_bits(s.records[0].score_bits), 20.0);
}

#[test]
fn aggregation_ignores_arrival_order() {
    // The same records in two arrival orders: the aggregated series is
    // identical, bit for bit.
    let run_a = vec![rec(2, 80.5), rec(0, 91.25), rec(1, 85.125)];
    let run_b = vec![rec(0, 91.25), rec(1, 85.125), rec(2, 80.5)];
    let a = ScoreSeries::from_records(&run_a);
    let b = ScoreSeries::from_records(&run_b);
    assert_eq!(a.records, b.records);
}

#[test]
fn rerunning_identical_input_gives_identical_results() {
    // Re-running the engine on the same streams with the same configuration
    // is deterministic: the score sequences agree bit for bit.
    let arrivals = vec![rec(3, 70.0625), rec(1, 71.5), rec(0, 69.875), rec(2, 72.0)];
    let first = ScoreSeries::from_records(&arrivals);
    let second = ScoreSeries::from_records(&arrivals);
    assert_eq!(first.records, second.records);
    let bits_first: Vec<u64> = first.records.iter().map(|r| r.score_bits).collect();
    let bits_second: Vec<u64> = second.records.iter().map(|r| r.score_bits).collect();
    assert_eq!(bits_first, bits_second);
}

#[test]
fn from_records_keeps_the_last_arrival_per_frame() {
    let arrivals = vec![rec(1, 10.0), rec(1, 11.0), rec(0, 5.0)];
    let s = ScoreSeries::from_records(&arrivals);
    assert_eq!(s.len(), 2);
    assert_eq!(f64::from_bits(s.records[1].score_bits), 11.0);
}

fn row(frame: usize, cell: &str) -> CsvRow {
    CsvRow { frame, score: cell.as_bytes().to_vec() }
}

#[test]
fn csv_export_writes_header_and_ordered_lines() {
    let rows = vec![row(0, "81.5"), row(1, "79.25"), row(12, "80")];
    let out = scores_to_csv(&rows);
    assert_eq!(
        String::from_utf8(out).unwrap(),
        "frame,score\n0,81.5\n1,79.25\n12,80\n"
    );
}

#[test]
fn csv_export_of_no_rows_is_just_the_header() {
    let out = scores_to_csv(&Vec::new());
    assert_eq!(String::from_utf8(out).unwrap(), "frame,score\n");
}

#[test]
fn csv_round_trip_reconstructs_the_rows() {
    let rows = vec![
        row(0, "81.50000000"),
        row(7, "-2.12500000"),
        row(10, "100"),
        row(usize::MAX, ""),
    ];
    let exported = scores_to_csv(&rows);
    let parsed = parse_csv(&exported).unwrap();
    assert_eq!(parsed.len(), rows.len());
    for (p, r) in parsed.iter().zip(rows.iter()) {
        assert_eq!(p.frame, r.frame);
        assert_eq!(p.score, r.score);
    }
}

#[test]
fn csv_parse_reads_a_plain_file() {
    let text = b"frame,score\n3,55.25\n9,60\n".to_vec();
    let parsed = parse_csv(&text).unwrap();
    assert_eq!(parsed.len(), 2);
    assert_eq!(parsed[0].frame, 3);
    assert_eq!(parsed[0].score, b"55.25".to_vec());
    assert_eq!(parsed[1].frame, 9);
    assert_eq!(parsed[1].score, b"60".to_vec());
}

#[test]
fn csv_parse_rejects_malformed_files() {
    // No header.
    assert!(parse_csv(&b"0,81.5\n".to_vec()).is_none());
    // Wrong header.
    assert!(parse_csv(&b"index,score\n0,81.5\n".to_vec()).is_none());
    // Missing frame index.
    assert!(parse_csv(&b"frame,score\n,81.5\n".to_vec()).is_none());
    // Non-numeric frame index.
    assert!(parse_csv(&b"frame,score\nx,81.5\n".to_vec()).is_none());
    // Frame index past the machine's range.
    assert!(parse_csv(&b"frame,score\n99999999999999999999999999,1\n".to_vec()).is_none());
    // Missing final line break.
    assert!(parse_csv(&b"frame,score\n0,81.5".to_vec()).is_none());
    // A second comma in a line.
    assert!(parse_csv(&b"frame,score\n0,81,5\n".to_vec()).is_none());
    // No comma at all.
    assert!(parse_csv(&b"frame,score\n0\n".to_vec()).is_none());
}

#[test]
fn csv_parse_accepts_an_empty_series() {
    let parsed = parse_csv(&b"frame,score\n".to_vec()).unwrap();
    assert!(parsed.is_empty());
}

#[test]
fn series_to_csv_uses_frame_order_not_arrival_order() {
    let arrivals = vec![rec(9, 50.0), rec(2, 60.0), rec(4, 55.0)];
    let s = ScoreSeries::from_records(&arrivals);
    let rows: Vec<CsvRow> = s
        .records
        .iter()
        .map(|r| CsvRow {
            frame: r.frame_index,
            score: format!("{:.8}", f64::from_bits(r.score_bits)).into_bytes(),
        })
        .collect();
    let out = scores_to_csv(&rows);
    assert_eq!(
        String::from_utf8(out).unwrap(),
        "frame,score\n2,60.00000000\n4,55.00000000\n9,50.00000000\n"
    );
}
