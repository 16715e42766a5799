use nomnom::style::{
    btn_style, flag_btn_style, log_line_style, ButtonKind, ACTIVE_FLAG_BUTTON_CSS,
    DOWNLOAD_BUTTON_CSS, FOLDER_BUTTON_CSS, INACTIVE_FLAG_BUTTON_CSS, STOP_BUTTON_CSS,
};

#[test]
fn log_line_colours() {
    assert_eq!(log_line_style("✔ Download complete!"), "color: #50fa7b;");
    assert_eq!(log_line_style("✗ Wait error: x"), "color: #ff5555;");
    assert_eq!(log_line_style("⚠ WARNING"), "color: #ff5555;");
    assert_eq!(log_line_style("▶ Starting download…"), "color: #6c63ff;");
    assert_eq!(log_line_style("$ yt-dlp"), "color: #6c63ff;");
    assert_eq!(log_line_style("[download]  12.5% of 10MiB"), "color: #8be9fd;");
    assert_eq!(log_line_style("x [info] y"), "color: #ffb86c;");
    assert_eq!(log_line_style("plain"), "color: #b0b0c0;");
    assert_eq!(log_line_style(""), "color: #b0b0c0;");
}

#[test]
fn log_line_rules_apply_in_order() {
    assert_eq!(log_line_style("✔ [info] done"), "color: #50fa7b;");
    assert_eq!(log_line_style("$ [download]"), "color: #6c63ff;");
    assert_eq!(log_line_style("[info] then [download]"), "color: #8be9fd;");
    assert_eq!(log_line_style(" ✔ not first"), "color: #b0b0c0;");
}

#[test]
fn button_styles() {
    assert_eq!(btn_style(ButtonKind::Download), DOWNLOAD_BUTTON_CSS);
    assert_eq!(btn_style(ButtonKind::Stop), STOP_BUTTON_CSS);
    assert_eq!(btn_style(ButtonKind::Folder), FOLDER_BUTTON_CSS);
    assert!(DOWNLOAD_BUTTON_CSS.contains("background: #6c63ff;"));
    assert!(STOP_BUTTON_CSS.contains("background: #ff4444;"));
    assert_eq!(flag_btn_style(true), ACTIVE_FLAG_BUTTON_CSS);
    assert_eq!(flag_btn_style(false), INACTIVE_FLAG_BUTTON_CSS);
}
