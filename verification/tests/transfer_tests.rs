use quarto_render::transfer::{
    destination_chosen, destination_written, dialog_for, download_name, download_payload,
    name_for_transfer, name_from_groups, payload_for, save_dialog, source_read, strip_stamp,
    FileFilter, SaveDialog, TransferError,
};

#[test]
fn stamp_is_removed_in_front_of_the_extension() {
    assert_eq!(strip_stamp("ppt_1755325282888.pptx"), "ppt.pptx");
    assert_eq!(strip_stamp("demo_1755325282888.html"), "demo.html");
    assert_eq!(strip_stamp("a_1_2.md"), "a_1.md");
    assert_eq!(strip_stamp("plain.html"), "plain.html");
    assert_eq!(strip_stamp("noextension_123"), "noextension_123");
    assert_eq!(strip_stamp("archive.tar_42.gz"), "archive.tar.gz");
    assert_eq!(strip_stamp("_123.md"), ".md");
    assert_eq!(strip_stamp("trailing_12."), "trailing_12.");
}

#[test]
fn names_are_made_of_the_first_and_last_group() {
    let groups = Some(vec![
        Some("deck_7.pdf".to_string()),
        Some("deck".to_string()),
        Some(".pdf".to_string()),
    ]);
    assert_eq!(name_from_groups("deck_7.pdf", groups), "deck.pdf");
    assert_eq!(name_from_groups("deck_7.pdf", None), "deck_7.pdf");
    let short = Some(vec![Some("deck_7.pdf".to_string())]);
    assert_eq!(name_from_groups("deck_7.pdf", short), "deck_7.pdf");
    let silent = Some(vec![Some("x".to_string()), None, Some(".pdf".to_string())]);
    assert_eq!(name_from_groups("x", silent), "x");
}

#[test]
fn name_shown_for_a_path() {
    assert_eq!(name_for_transfer(Some("out_99.html")), "out.html");
    assert_eq!(name_for_transfer(None), "output.html");
    assert_eq!(download_name("/tmp/demo_1755325282888.html"), "demo.html");
    assert_eq!(download_name("demo_1755325282888.html"), "demo.html");
    assert_eq!(download_name("plain"), "plain");
    assert_eq!(download_name("/tmp/a_1.html"), "a.html");
    assert_eq!(download_name("out/deck_42.pptx"), "deck.pptx");
    assert_eq!(download_name("/tmp/.hidden_7.pdf"), ".hidden.pdf");
    assert_eq!(download_name("/"), "output.html");
    assert_eq!(download_name(""), "output.html");
}

#[test]
fn payload_is_name_and_base64() {
    let payload = download_payload("/tmp/demo_1755325282888.html", Ok(b"hello".to_vec()));
    assert_eq!(payload, Ok(("demo.html".to_string(), "aGVsbG8=".to_string())));
    for n in 0..7usize {
        let (_, encoded) = download_payload("/tmp/x_1.pdf", Ok(vec![1u8; n])).unwrap();
        assert_eq!(encoded.len(), 4 * ((n + 2) / 3));
    }
    let payload = payload_for("x.pdf".to_string(), Ok(vec![0xfb, 0xff, 0xfe]));
    assert_eq!(payload, Ok(("x.pdf".to_string(), "+//+".to_string())));
    let payload = payload_for("x.pdf".to_string(), Ok(Vec::new()));
    assert_eq!(payload, Ok(("x.pdf".to_string(), String::new())));
    for n in 0..10usize {
        let (_, encoded) = payload_for("x".to_string(), Ok(vec![7u8; n])).unwrap();
        assert_eq!(encoded.len(), 4 * ((n + 2) / 3));
    }
}

#[test]
fn read_failure_is_reported_as_such() {
    let err = download_payload("/tmp/gone.html", Err("No such file".to_string())).unwrap_err();
    assert_eq!(err, TransferError::ReadFailed("No such file".to_string()));
    assert_eq!(err.message(), "HTML 파일 읽기 실패: No such file");
    assert_eq!(source_read(Ok(vec![1, 2])), Ok(vec![1, 2]));
    assert_eq!(
        source_read(Err("denied".to_string())),
        Err(TransferError::ReadFailed("denied".to_string()))
    );
}

fn filter(name: &str, extensions: &[&str]) -> FileFilter {
    FileFilter {
        name: name.to_string(),
        extensions: extensions.iter().map(|s| s.to_string()).collect(),
    }
}

#[test]
fn picker_offers_the_extension_then_all_files() {
    assert_eq!(
        save_dialog(Some("deck.pptx".to_string())),
        SaveDialog {
            file_name: "deck.pptx".to_string(),
            filters: vec![filter("pptx", &["pptx"]), filter("All Files", &["*"])],
        }
    );
    assert_eq!(
        save_dialog(None),
        SaveDialog {
            file_name: "output.html".to_string(),
            filters: vec![filter("html", &["html"]), filter("All Files", &["*"])],
        }
    );
    assert_eq!(
        save_dialog(Some("README".to_string())),
        SaveDialog { file_name: "README".to_string(), filters: vec![filter("All Files", &["*"])] }
    );
    assert_eq!(
        dialog_for("a.b".to_string(), Some("pdf".to_string())),
        SaveDialog {
            file_name: "a.b".to_string(),
            filters: vec![filter("pdf", &["pdf"]), filter("All Files", &["*"])],
        }
    );
}

#[test]
fn picker_answers() {
    assert_eq!(destination_chosen(None), Err(TransferError::DialogClosed));
    assert_eq!(destination_chosen(Some(None)), Err(TransferError::Cancelled));
    assert_eq!(
        destination_chosen(Some(Some("/home/a/deck.html".to_string()))),
        Ok("/home/a/deck.html".to_string())
    );
    assert_eq!(TransferError::DialogClosed.message(), "파일 선택 대화상자 오류");
    assert_eq!(TransferError::Cancelled.message(), "저장이 취소되었습니다.");
}

#[test]
fn save_outcome_is_worded() {
    assert_eq!(
        destination_written("/home/a/deck.html", Ok(())),
        Ok("저장 완료: /home/a/deck.html".to_string())
    );
    let err = destination_written("/home/a/deck.html", Err("read-only".to_string())).unwrap_err();
    assert_eq!(err, TransferError::WriteFailed("read-only".to_string()));
    assert_eq!(err.message(), "파일 저장 실패: read-only");
}
