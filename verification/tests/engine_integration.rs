use tantivy_ingest::config::IndexingConfig;
use tantivy_ingest::errors::FatalStage;
use tantivy_ingest::ingest::{acquire_writer, index_documents, parse_line, run_commit_manager,
    run_merge, DocMessage};

fn test_schema() -> tantivy::schema::Schema {
    let mut builder = tantivy::schema::Schema::builder();
    builder.add_text_field("title", tantivy::schema::TEXT | tantivy::schema::STORED);
    builder.add_u64_field("count", tantivy::schema::INDEXED);
    builder.build()
}

#[test]
fn parse_line_accepts_a_well_formed_record() {
    let schema = test_schema();
    let line = "{\"title\": \"hello world\", \"count\": 3}";
    let parsed = parse_line(&schema, line);
    assert!(parsed.is_some());
    let (_doc, size) = parsed.unwrap();
    assert_eq!(size, line.len());
}

#[test]
fn parse_line_drops_a_type_violating_record() {
    let schema = test_schema();
    // The schema declares `count` as an unsigned integer.
    let parsed = parse_line(&schema, "{\"title\": \"bad\", \"count\": \"not a number\"}");
    assert!(parsed.is_none());
}

#[test]
fn parse_line_drops_unparseable_text() {
    let schema = test_schema();
    assert!(parse_line(&schema, "this is not a record").is_none());
}

#[test]
fn ingest_loop_commits_all_documents() {
    let schema = test_schema();
    let index = tantivy::Index::create_in_ram(schema.clone());
    let cfg = IndexingConfig::new(1, 50_000_000, false, false);
    let mut writer = acquire_writer(&index, &cfg).expect("writer");
    let (tx, rx) = crossbeam_channel::bounded::<DocMessage>(100);
    let mut expected_bytes: u64 = 0;
    for i in 0..5 {
        let line = format!("{{\"title\": \"doc number {}\", \"count\": {}}}", i, i);
        expected_bytes += line.len() as u64;
        let (doc, size) = parse_line(&schema, &line).expect("well-formed line");
        tx.send(DocMessage::Doc(doc, size)).unwrap();
    }
    drop(tx);
    let stats = index_documents(&mut writer, &rx).expect("commit");
    assert_eq!(stats.docs_total, 5);
    assert_eq!(stats.bytes_total, expected_bytes);
    let reader = index.reader().unwrap();
    assert_eq!(reader.searcher().num_docs(), 5);
}

#[test]
fn five_lines_one_malformed_commit_four() {
    let schema = test_schema();
    let index = tantivy::Index::create_in_ram(schema.clone());
    let cfg = IndexingConfig::new(1, 50_000_000, false, false);
    let mut writer = acquire_writer(&index, &cfg).expect("writer");
    let (tx, rx) = crossbeam_channel::bounded::<DocMessage>(100);
    let lines = [
        "{\"title\": \"one\", \"count\": 1}",
        "{\"title\": \"two\", \"count\": 2}",
        "{\"title\": \"three\", \"count\": \"violates the numeric type\"}",
        "{\"title\": \"four\", \"count\": 4}",
        "{\"title\": \"five\", \"count\": 5}",
    ];
    let mut errors = 0;
    for line in lines {
        match parse_line(&schema, line) {
            Some((doc, size)) => tx.send(DocMessage::Doc(doc, size)).unwrap(),
            None => errors += 1,
        }
    }
    drop(tx);
    let stats = index_documents(&mut writer, &rx).expect("commit");
    assert_eq!(errors, 1);
    assert_eq!(stats.docs_total, 4);
    let reader = index.reader().unwrap();
    assert_eq!(reader.searcher().num_docs(), 4);
}

#[test]
fn empty_queue_still_commits_cleanly() {
    let schema = test_schema();
    let index = tantivy::Index::create_in_ram(schema);
    let cfg = IndexingConfig::new(2, 60_000_000, false, false);
    let mut writer = acquire_writer(&index, &cfg).expect("writer");
    let (tx, rx) = crossbeam_channel::bounded::<DocMessage>(10);
    drop(tx);
    let stats = index_documents(&mut writer, &rx).expect("commit");
    assert_eq!(stats.docs_total, 0);
    assert_eq!(stats.bytes_total, 0);
}

#[test]
fn commit_manager_runs_a_whole_session() {
    let schema = test_schema();
    let index = tantivy::Index::create_in_ram(schema.clone());
    let cfg = IndexingConfig::new(2, 60_000_000, true, false);
    let (tx, rx) = crossbeam_channel::bounded::<DocMessage>(100);
    for i in 0..7 {
        let line = format!("{{\"title\": \"session doc {}\", \"count\": {}}}", i, i);
        let (doc, size) = parse_line(&schema, &line).expect("well-formed line");
        tx.send(DocMessage::Doc(doc, size)).unwrap();
    }
    drop(tx);
    let outcome = run_commit_manager(&index, "", &cfg, &rx).expect("run");
    assert_eq!(outcome.stats.docs_total, 7);
    assert!(!outcome.merged);
    let reader = index.reader().unwrap();
    assert_eq!(reader.searcher().num_docs(), 7);
}

#[test]
fn second_run_on_same_input_doubles_nothing() {
    let schema = test_schema();
    let lines: Vec<String> = (0..4)
        .map(|i| format!("{{\"title\": \"again {}\", \"count\": {}}}", i, i))
        .collect();
    let mut counts = Vec::new();
    for _ in 0..2 {
        let index = tantivy::Index::create_in_ram(schema.clone());
        let cfg = IndexingConfig::new(1, 50_000_000, false, false);
        let mut writer = acquire_writer(&index, &cfg).expect("writer");
        let (tx, rx) = crossbeam_channel::bounded::<DocMessage>(16);
        for line in &lines {
            let (doc, size) = parse_line(&schema, line).expect("well-formed");
            tx.send(DocMessage::Doc(doc, size)).unwrap();
        }
        drop(tx);
        let stats = index_documents(&mut writer, &rx).expect("commit");
        counts.push(stats.docs_total);
        let reader = index.reader().unwrap();
        assert_eq!(reader.searcher().num_docs() as u64, stats.docs_total);
    }
    assert_eq!(counts[0], counts[1]);
    assert_eq!(counts[0], 4);
}

#[test]
fn input_failure_fails_the_ingest_loop_without_committing() {
    let schema = test_schema();
    let index = tantivy::Index::create_in_ram(schema.clone());
    let cfg = IndexingConfig::new(1, 50_000_000, false, false);
    let mut writer = acquire_writer(&index, &cfg).expect("writer");
    let (tx, rx) = crossbeam_channel::bounded::<DocMessage>(100);
    for i in 0..3 {
        let line = format!("{{\"title\": \"early doc {}\", \"count\": {}}}", i, i);
        let (doc, size) = parse_line(&schema, &line).expect("well-formed line");
        tx.send(DocMessage::Doc(doc, size)).unwrap();
    }
    tx.send(DocMessage::SourceFailed("the stream broke".to_string())).unwrap();
    drop(tx);
    let err = match index_documents(&mut writer, &rx) {
        Ok(_) => panic!("an input failure must fail the run"),
        Err(e) => e,
    };
    assert_eq!(err.stage, FatalStage::Input);
    assert_eq!(err.detail, "the stream broke");
    let reader = index.reader().unwrap();
    assert_eq!(reader.searcher().num_docs(), 0);
}

#[test]
fn input_failure_run_is_rolled_back_and_commits_nothing() {
    let schema = test_schema();
    let index = tantivy::Index::create_in_ram(schema.clone());
    let cfg = IndexingConfig::new(2, 60_000_000, false, false);
    let (tx, rx) = crossbeam_channel::bounded::<DocMessage>(100);
    for i in 0..5 {
        let line = format!("{{\"title\": \"prefix doc {}\", \"count\": {}}}", i, i);
        let (doc, size) = parse_line(&schema, &line).expect("well-formed line");
        tx.send(DocMessage::Doc(doc, size)).unwrap();
    }
    tx.send(DocMessage::SourceFailed("disk pulled".to_string())).unwrap();
    drop(tx);
    let err = match run_commit_manager(&index, "", &cfg, &rx) {
        Ok(_) => panic!("an input failure must fail the run"),
        Err(e) => e,
    };
    assert_eq!(err.stage, FatalStage::Input);
    let reader = index.reader().unwrap();
    assert_eq!(reader.searcher().num_docs(), 0);
}

#[test]
fn merge_of_a_missing_index_is_a_merge_stage_error() {
    let err = run_merge("surely/no/such/index/directory").unwrap_err();
    assert_eq!(err.stage, FatalStage::Merge);
    assert!(!err.detail.is_empty());
}

#[test]
fn writer_lock_contention_is_reported_not_panicked() {
    let schema = test_schema();
    let index = tantivy::Index::create_in_ram(schema);
    let cfg = IndexingConfig::new(1, 50_000_000, false, false);
    let _held = acquire_writer(&index, &cfg).expect("first writer");
    let err = match acquire_writer(&index, &cfg) {
        Ok(_) => panic!("the writer lock was already held"),
        Err(e) => e,
    };
    assert_eq!(err.stage, FatalStage::Submit);
}
