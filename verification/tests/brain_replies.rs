use mangogeneration::brain::{
    analysis_reply, analyze_args, avatar_args, brain_bin_candidates, brain_bin_name,
    convert_args, drawing_reply, engine_library_candidates, engine_library_name,
    engine_missing_message, file_analysis_from, find_brain_bin, generate_args, qrcode_args,
    run_brain_analyze, run_brain_avatar, run_brain_convert, run_brain_generate, run_brain_qrcode,
    BrainExit, Platform,
};
use mangogeneration::json::{
    decode_lossy, member_text_or, member_unsigned, parse_json_document, parse_json_list,
    JsonField, JsonNumber, JsonValue,
};

fn record(fields: Vec<(&str, JsonValue)>) -> JsonValue {
    JsonValue::Record(
        fields.into_iter().map(|(k, v)| JsonField { key: k.to_string(), value: v }).collect(),
    )
}

fn text(s: &str) -> JsonValue {
    JsonValue::Text(s.to_string())
}

fn ok_exit() -> Result<BrainExit, String> {
    Ok(BrainExit { success: true, stdout: Vec::new(), stderr: Vec::new() })
}

fn printed(stdout: &str) -> Result<BrainExit, String> {
    Ok(BrainExit { success: true, stdout: stdout.as_bytes().to_vec(), stderr: Vec::new() })
}

fn failed(stderr: &str) -> Result<BrainExit, String> {
    Ok(BrainExit { success: false, stdout: Vec::new(), stderr: stderr.as_bytes().to_vec() })
}

#[test]
fn program_names() {
    assert_eq!(brain_bin_name(Platform::Linux), "brain");
    assert_eq!(brain_bin_name(Platform::Windows), "brain.exe");
    assert_eq!(engine_library_name(Platform::Linux), "libengine.so");
    assert_eq!(engine_library_name(Platform::Windows), "engine.dll");
    assert_eq!(engine_missing_message(Platform::Other), "libengine.so не найдена");
}

#[test]
fn program_candidates() {
    assert_eq!(
        brain_bin_candidates(Platform::Linux),
        vec!["brain/brain", "../brain/brain", "../../brain/brain", "brain"]
    );
    assert_eq!(
        engine_library_candidates(Platform::Windows),
        vec!["engine/engine.dll", "../engine/engine.dll", "../../engine/engine.dll", "engine.dll"]
    );
}

#[test]
fn brain_lookup() {
    assert_eq!(find_brain_bin(Some("brain/brain".to_string())), Ok("brain/brain".to_string()));
    assert_eq!(
        find_brain_bin(None),
        Err("brain (C) не найден. Соберите его: make -C brain".to_string())
    );
}

#[test]
fn command_arguments() {
    assert_eq!(generate_args("gradient", "w.png"), vec!["generate", "--type", "gradient", "--output", "w.png"]);
    assert_eq!(analyze_args("/tmp/x"), vec!["analyze", "/tmp/x"]);
    assert_eq!(
        qrcode_args("hello", "q.png", 256),
        vec!["qrcode", "--text", "hello", "--output", "q.png", "--size", "256"]
    );
    assert_eq!(
        avatar_args("Ann", "a.png", -7),
        vec!["avatar", "--name", "Ann", "--output", "a.png", "--size", "-7"]
    );
    assert_eq!(
        qrcode_args("t", "o", i32::MIN)[6],
        "-2147483648"
    );
    assert_eq!(avatar_args("n", "o", 0)[6], "0");
    assert_eq!(convert_args("in.png", "out.bmp", "BMP"), vec!["convert", "in.png", "out.bmp", "--format", "BMP"]);
}

#[test]
fn generate_uses_reply_path() {
    assert_eq!(run_brain_generate("w.png", printed(r#"{"path": "/tmp/gen.png"}"#)), Ok("/tmp/gen.png".to_string()));
    let reply = Ok(record(vec![("path", text("/tmp/gen.png"))]));
    assert_eq!(drawing_reply("w.png", reply), Ok("/tmp/gen.png".to_string()));
}

#[test]
fn generate_falls_back_to_output() {
    assert_eq!(run_brain_generate("w.png", printed(r#"{"path": 3}"#)), Ok("w.png".to_string()));
    assert_eq!(run_brain_generate("w.png", printed("null")), Ok("w.png".to_string()));
    assert_eq!(run_brain_generate("w.png", printed("[1, 2]")), Ok("w.png".to_string()));
}

#[test]
fn generate_errors() {
    assert_eq!(
        run_brain_generate("w.png", Err("No such file".to_string())),
        Err("Ошибка запуска brain: No such file".to_string())
    );
    assert_eq!(
        run_brain_generate("w.png", failed("bad type")),
        Err("brain ошибка: bad type".to_string())
    );
    let err = run_brain_generate("w.png", printed("{")).unwrap_err();
    assert!(err.starts_with("Ошибка парсинга ответа: EOF while parsing"), "{}", err);
    assert_eq!(
        drawing_reply("w.png", Err("EOF while parsing".to_string())),
        Err("Ошибка парсинга ответа: EOF while parsing".to_string())
    );
}

#[test]
fn error_stream_is_decoded_lossily() {
    let exit = Ok(BrainExit { success: false, stdout: Vec::new(), stderr: vec![b'o', 0xff, b'k'] });
    assert_eq!(run_brain_generate("w.png", exit), Err("brain ошибка: o\u{fffd}k".to_string()));
    assert_eq!(decode_lossy("плохо".as_bytes()), "плохо");
}

#[test]
fn qrcode_and_avatar_replies() {
    let reply = r#"{"other": "x", "path": "q.png"}"#;
    assert_eq!(run_brain_qrcode("out.png", printed(reply)), Ok("q.png".to_string()));
    assert_eq!(run_brain_avatar("out.png", printed(reply)), Ok("q.png".to_string()));
}

#[test]
fn convert_returns_output() {
    assert_eq!(run_brain_convert("o.png", ok_exit()), Ok("o.png".to_string()));
    assert_eq!(run_brain_convert("o.png", failed("e")), Err("brain ошибка: e".to_string()));
}

#[test]
fn analysis_reads_fields_with_defaults() {
    let reply = r#"[
        {"name": "a.png", "path": "/d/a.png", "extension": "png", "size_human": "1 KB",
         "size_bytes": 1024, "category": "Image", "suggested_folder": "Images"},
        null,
        {"size_bytes": -5},
        {"size_bytes": 2.5, "name": 7}
    ]"#;
    let files = run_brain_analyze(printed(reply)).unwrap();
    assert_eq!(files.len(), 4);
    assert_eq!(files[0].name, "a.png");
    assert_eq!(files[0].path, "/d/a.png");
    assert_eq!(files[0].extension, "png");
    assert_eq!(files[0].size, "1 KB");
    assert_eq!(files[0].size_bytes, 1024);
    assert_eq!(files[0].category, "Image");
    assert_eq!(files[0].target_folder, "Images");
    assert_eq!(files[1].name, "unknown");
    assert_eq!(files[1].path, "");
    assert_eq!(files[1].size, "?");
    assert_eq!(files[1].category, "Other");
    assert_eq!(files[1].target_folder, "Other");
    assert_eq!(files[2].size_bytes, 0);
    assert_eq!(files[3].size_bytes, 0);
    assert_eq!(files[3].name, "unknown");
    let direct = analysis_reply(Ok(vec![record(vec![("size_bytes", JsonValue::Number(JsonNumber::Unsigned(9)))])])).unwrap();
    assert_eq!(direct[0].size_bytes, 9);
}

#[test]
fn analysis_errors() {
    let err = run_brain_analyze(printed(r#"{"name": "a"}"#)).unwrap_err();
    assert!(err.starts_with("Ошибка парсинга JSON: invalid type"), "{}", err);
    assert_eq!(
        analysis_reply(Err("expected a sequence".to_string())).err(),
        Some("Ошибка парсинга JSON: expected a sequence".to_string())
    );
    assert_eq!(run_brain_analyze(failed("no dir")).err(), Some("brain ошибка: no dir".to_string()));
}

#[test]
fn json_parsing() {
    match parse_json_document(r#"{"a": [1, -2, 0.5, true, null, "s"]}"#).unwrap() {
        JsonValue::Record(fields) => {
            assert_eq!(fields.len(), 1);
            assert_eq!(fields[0].key, "a");
            match &fields[0].value {
                JsonValue::List(items) => {
                    assert!(matches!(items[0], JsonValue::Number(JsonNumber::Unsigned(1))));
                    assert!(matches!(items[1], JsonValue::Number(JsonNumber::Negative(-2))));
                    assert!(matches!(items[2], JsonValue::Number(JsonNumber::Fractional)));
                    assert!(matches!(items[3], JsonValue::Bool(true)));
                    assert!(matches!(items[4], JsonValue::Null));
                    assert!(matches!(&items[5], JsonValue::Text(t) if t == "s"));
                }
                _ => panic!("a list was expected"),
            }
        }
        _ => panic!("an object was expected"),
    }
    assert!(parse_json_document("nope").is_err());
    assert_eq!(parse_json_list("[]").unwrap().len(), 0);
    assert!(parse_json_list("{}").is_err());
}

#[test]
fn json_members() {
    let v = record(vec![("a", text("x")), ("a", text("y")), ("n", JsonValue::Number(JsonNumber::Fractional))]);
    assert_eq!(member_text_or(&v, "a", "d"), "x");
    assert_eq!(member_text_or(&v, "b", "d"), "d");
    assert_eq!(member_unsigned(&v, "n"), None);
    assert_eq!(file_analysis_from(&JsonValue::Bool(true)).name, "unknown");
}
