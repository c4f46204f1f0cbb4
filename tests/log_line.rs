use fmrl::log_line::{classify_line, parse_line, ImportLogLine, LineType};
use fmrl::rules::{contains_warning_text, get_rules_impls, is_header, is_operation_start, Locale};

#[test]
fn test_parse_line() {
    let ts = "2020-05-01 12:00:00.000";
    let filename = "/Users/username/Downloads/Import.log";
    let code = "0";
    let message = "Imported file";

    // regular
    let line = parse_line(format!("{}\t{}\t{}\t{}", ts, filename, code, message).as_str());
    let LineType::Success(val) = line else {
        panic!("expected regular line");
    };
    assert!(
        val.timestamp == ts
            && val.filename == filename
            && val.code == code
            && val.message == message
    );

    // error
    let code = "123";
    let line = parse_line(format!("{}\t{}\t{}\t{}", ts, filename, code, message).as_str());
    let LineType::Error(val) = line else {
        panic!("expected Error line");
    };
    assert!(
        val.timestamp == ts
            && val.filename == filename
            && val.code == code
            && val.message == message
    );

    // warning
    let code = "0";
    let message = "something something ... already exists.";
    let line = parse_line(format!("{}\t{}\t{}\t{}", ts, filename, code, message).as_str());
    let LineType::Warning(val) = line else {
        panic!("expected Warning line");
    };
    assert!(
        val.timestamp == ts
            && val.filename == filename
            && val.code == code
            && val.message == message
    );

    // other
    let string = "Lorem ipsum dolor sit amet, consectetur adipiscing elit. Sed non nibh at neque vehicula accumsan quis hendrerit ligula. Integer vestibulum justo dolor, sit amet maximus mi euismod sed. Praesent rhoncus eros sed orci imperdiet sollicitudin. Proin ornare erat";
    let LineType::Other(_) = parse_line(string) else {
        panic!("expected Other line");
    };

    // header
    let line = parse_line("lkjflkjf Timestamp\tFilename\tError\tMessage");
    let LineType::Header(_) = line else {
        panic!("expected Error line");
    };
}

#[test]
fn parse_line_should_handle_trailing_crs() {
    let ts = "2020-05-01 12:00:00.000";
    let filename = "/Users/username/Downloads/Import.log";
    let code = "123";
    let message = "Imported file\ranother line\r a third line\r";
    let line = parse_line(format!("{}\t{}\t{}\t{}", ts, filename, code, message).as_str());
    let LineType::Error(val) = line else {
        panic!("expected Error line");
    };
    assert_eq!(val.timestamp, ts);
    assert_eq!(val.filename, filename);
    assert_eq!(val.code, code);
    assert_eq!(
        val.message,
        "Imported file\r\nanother line\r\n a third line\r"
    );
}

#[test]
fn test_is_header() {
    assert!(is_header(
        "anythinghere-- Timestamp\tFilename\tError\tMessage"
    ));
    let line = "hello world";
    assert!(!is_header(line));
    assert!(is_header("lkjflkjfljf - 타임 스탬프\t파일 이름\t오류\t메시지"))
}

#[test]
fn header_suffix_of_each_locale() {
    assert!(is_header("anything--Timestamp\tFilename\tError\tMessage"));
    assert!(!is_header("hello world"));
    assert!(is_header("x Zeitstempel\tDateiname\tFehler\tMeldung"));
    assert!(is_header("x Fecha y hora\tNombre de archivo\tError\tMensaje"));
    assert!(is_header("x Horodatage\tNomFichier\tErreur\tMessage"));
    assert!(is_header("x Indicatore data e ora\tNomefile\tErrore\tMessaggio"));
    assert!(is_header("x タイムスタンプ\tファイル名\tエラー\tメッセージ"));
    assert!(is_header("x Tijdstempel\tBestandsnaam\tFout\tBericht"));
    assert!(is_header("x Carimbo de data/hora\tNome do arquivo\tErro\tMensagem"));
    assert!(is_header("x Tidsstämpel\tFilnamn\tFel\tMeddelande"));
    assert!(is_header("x 时间戳\t文件名\t错误\t信息"));
    // the suffix must close the line
    assert!(!is_header("Timestamp\tFilename\tError\tMessage and more"));
    assert_eq!(
        get_rules_impls(),
        vec![
            Locale::En,
            Locale::De,
            Locale::Es,
            Locale::Fr,
            Locale::It,
            Locale::Ja,
            Locale::Ko,
            Locale::Nl,
            Locale::Pt,
            Locale::Sv,
            Locale::Zh,
        ]
    );
}

#[test]
fn lines_without_timestamp_or_header_stay_verbatim() {
    for raw in ["", "foo\tbar\tbaz\tqux\tquux", "2020-05-01\tno time", "\t\t\t", "12:00:00"] {
        assert_eq!(parse_line(raw), LineType::Other(raw.to_string()));
    }
}

fn data(code: &str, message: &str) -> String {
    format!("2021-01-01T00:00:00.000Z\tC:\\db.fmp12\t{code}\t{message}")
}

#[test]
fn success_or_warning_for_code_zero() {
    let expect = |message: &str| ImportLogLine {
        timestamp: "2021-01-01T00:00:00.000Z".to_string(),
        filename: "C:\\db.fmp12".to_string(),
        code: "0".to_string(),
        message: message.to_string(),
    };
    assert_eq!(
        parse_line(&data("0", "Import of “x” started")),
        LineType::Success(expect("Import of “x” started"))
    );
    for warning in [
        "Table “A” already exists.",
        "Die Tabelle „A“ bereits existiert.",
        "La tabla ya existe.",
        "Le champ existe déjà.",
        "La tabella esiste già nel file",
        "テーブル「A」はすでに存在します。",
        "필드가 이미 존재합니다..",
        "Het veld bestaat.",
        "O campo já existe.",
        "Fältet redan finns.",
        "名为 “A” 的表",
        "File reference “x” created and imported automatically.",
        "File reference “x” used instead since it refers to the same file.",
    ] {
        assert_eq!(parse_line(&data("0", warning)), LineType::Warning(expect(warning)));
    }
}

#[test]
fn error_lines_get_crlf_repair() {
    let LineType::Error(val) = parse_line(&data("802", "A\rB\r\nC\r")) else {
        panic!("expected Error line");
    };
    assert_eq!(val.message, "A\r\nB\r\nC\r");
    assert_eq!(val.code, "802");
    // warning text on an error line does not make it a warning
    assert!(parse_line(&data("3", "Table already exists.")).is_error());
}

#[test]
fn missing_columns_are_empty() {
    let line = parse_line("2021-01-01 00:00:00.000");
    let expected = ImportLogLine {
        timestamp: "2021-01-01 00:00:00.000".to_string(),
        ..ImportLogLine::default()
    };
    assert_eq!(line, LineType::Error(expected));
}

#[test]
fn tabs_in_the_message_survive() {
    let LineType::Success(val) = parse_line(&data("0", "a\tb\tc")) else {
        panic!("expected Success line");
    };
    assert_eq!(val.message, "a\tb\tc");
    assert_eq!(val.to_string(), data("0", "a\tb\tc"));
}

#[test]
fn classify_line_takes_the_timestamp_verdict() {
    let raw = "not a date\tf\t0\tdone";
    assert!(parse_line(raw).is_other());
    assert!(classify_line(raw, true).is_success());
    assert!(classify_line(raw, false).is_other());
    assert!(classify_line("not a date\tf\t5\tbad", true).is_error());
    assert!(classify_line("Timestamp\tFilename\tError\tMessage", false).is_header());
}

#[test]
fn classifying_twice_gives_the_same_result() {
    for raw in [
        data("0", "ok"),
        data("7", "x\ry"),
        data("0", "La tabla ya existe."),
        "Timestamp\tFilename\tError\tMessage".to_string(),
        "noise".to_string(),
    ] {
        assert_eq!(parse_line(&raw), parse_line(&raw));
    }
}

#[test]
fn line_queries() {
    let ok = ImportLogLine {
        code: "0".to_string(),
        message: "Import of “x” started".to_string(),
        ..ImportLogLine::default()
    };
    assert!(!ok.is_error());
    assert!(is_operation_start(&ok));
    assert!(!contains_warning_text(&ok));
    let zh = ImportLogLine {
        code: "0".to_string(),
        message: "导入操作已开始: x".to_string(),
        ..ImportLogLine::default()
    };
    assert!(is_operation_start(&zh));
    let err = ImportLogLine {
        code: "1".to_string(),
        message: "Table already exists.".to_string(),
        ..ImportLogLine::default()
    };
    assert!(err.is_error());
    assert!(!contains_warning_text(&err));
    let err_start = ImportLogLine { message: "Import started".to_string(), ..err.clone() };
    assert!(!is_operation_start(&err_start));
    let other = LineType::Other("raw\ttext".to_string());
    assert_eq!(other.to_string(), "raw\ttext");
    assert!(other.is_other() && !other.is_header() && !other.is_warning());
}
