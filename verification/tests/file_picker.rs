use nestix_native_appkit::file_picker::{
    allowed_file_types, modal_response, open_result, panel_options, paths_result, save_result,
    FileFilter, FilePickerError, FilePickerMode, FilePickerOutcome, ModalResponse, PanelOptions,
    SelectedUrl,
};

fn file(path: &str) -> SelectedUrl {
    SelectedUrl {
        is_file: true,
        path: Some(path.to_string()),
    }
}

fn filter(extensions: &[&str], all_files: bool) -> FileFilter {
    FileFilter {
        name: "Filter".to_string(),
        extensions: extensions.iter().map(|e| e.to_string()).collect(),
        all_files,
    }
}

#[test]
fn panels_are_configured_per_mode() {
    assert_eq!(
        panel_options(FilePickerMode::OpenFiles),
        PanelOptions {
            save_panel: false,
            can_choose_files: true,
            can_choose_directories: false,
            allows_multiple_selection: true,
        }
    );
    assert_eq!(
        panel_options(FilePickerMode::SelectFolder),
        PanelOptions {
            save_panel: false,
            can_choose_files: false,
            can_choose_directories: true,
            allows_multiple_selection: false,
        }
    );
    assert!(panel_options(FilePickerMode::SaveFile).save_panel);
    assert!(!panel_options(FilePickerMode::OpenFile).allows_multiple_selection);
}

#[test]
fn filters_restrict_types_unless_one_admits_everything() {
    assert_eq!(
        allowed_file_types(&[filter(&["png", "jpg"], false), filter(&["gif"], false)]),
        Some(vec!["png".to_string(), "jpg".to_string(), "gif".to_string()])
    );
    assert_eq!(
        allowed_file_types(&[filter(&["png"], false), filter(&[], true)]),
        None
    );
    assert_eq!(allowed_file_types(&[filter(&[], false)]), None);
    assert_eq!(allowed_file_types(&[]), None);
}

#[test]
fn modal_responses_are_classified() {
    assert_eq!(modal_response(1), ModalResponse::Accepted);
    assert_eq!(modal_response(0), ModalResponse::Cancelled);
    assert_eq!(modal_response(-1001), ModalResponse::Aborted);
    assert_eq!(modal_response(7), ModalResponse::Unexpected(7));
}

#[test]
fn open_panels_report_paths_or_failures() {
    assert_eq!(
        open_result(1, &[file("/a"), file("/b")]),
        Ok(FilePickerOutcome::Selected(vec!["/a".to_string(), "/b".to_string()]))
    );
    assert_eq!(open_result(1, &[]), Ok(FilePickerOutcome::Cancelled));
    assert_eq!(open_result(0, &[file("/a")]), Ok(FilePickerOutcome::Cancelled));
    assert_eq!(open_result(-1001, &[]), Err(FilePickerError::Aborted));
    assert_eq!(open_result(42, &[]), Err(FilePickerError::UnexpectedResponse(42)));
    let remote = SelectedUrl {
        is_file: false,
        path: Some("/x".to_string()),
    };
    assert_eq!(
        open_result(1, &[file("/a"), remote]),
        Err(FilePickerError::NonFilesystemSelection)
    );
    let pathless = SelectedUrl {
        is_file: true,
        path: None,
    };
    assert_eq!(
        paths_result(&[pathless]),
        Err(FilePickerError::NonFilesystemSelection)
    );
}

#[test]
fn save_panels_report_their_single_path() {
    assert_eq!(
        save_result(1, Some(&file("/out.txt"))),
        Ok(FilePickerOutcome::Selected(vec!["/out.txt".to_string()]))
    );
    assert_eq!(save_result(1, None), Err(FilePickerError::NonFilesystemSelection));
    assert_eq!(save_result(0, None), Ok(FilePickerOutcome::Cancelled));
    assert_eq!(save_result(-1001, None), Err(FilePickerError::Aborted));
    assert_eq!(save_result(-5, None), Err(FilePickerError::UnexpectedResponse(-5)));
}
