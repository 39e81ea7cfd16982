use fgm::cli::{
    AuthCommands, ExportCommands, ExportFormat, FilesCommands, ImageProtocol, OutputFormat,
    PreviewArgs, TokenFormat,
};
use fgm::types::ImageResponse;

#[test]
fn export_formats_name_their_extension() {
    assert_eq!(ExportFormat::Png.as_str(), "png");
    assert_eq!(ExportFormat::Svg.as_str(), "svg");
    assert_eq!(ExportFormat::Pdf.as_str(), "pdf");
    assert_eq!(ExportFormat::Jpg.as_str(), "jpg");
}

#[test]
fn output_format_defaults_to_table() {
    assert_eq!(OutputFormat::default(), OutputFormat::Table);
}

#[test]
fn command_shapes_carry_their_arguments() {
    let cmd = FilesCommands::Tree { file_key_or_url: "abc".to_string(), depth: 3 };
    match cmd {
        FilesCommands::Tree { file_key_or_url, depth } => {
            assert_eq!(file_key_or_url, "abc");
            assert_eq!(depth, 3);
        }
        _ => panic!("wrong shape"),
    }

    let cmd = ExportCommands::File {
        file_key_or_url: "k".to_string(),
        node: vec!["1:2".to_string()],
        all_frames: false,
        format: ExportFormat::Png,
        scale: 2,
        output: ".".to_string(),
        name: None,
    };
    match cmd {
        ExportCommands::File { scale, .. } => assert_eq!(scale, 2),
        _ => panic!("wrong shape"),
    }

    let args = PreviewArgs {
        file_key: "k".to_string(),
        node: None,
        width: Some(80),
        protocol: ImageProtocol::Auto,
    };
    assert_eq!(args.protocol, ImageProtocol::Auto);
    assert!(matches!(AuthCommands::Login, AuthCommands::Login));
    assert!(matches!(TokenFormat::Css, TokenFormat::Css));
}

#[test]
fn image_response_looks_up_the_first_matching_url() {
    let r = ImageResponse {
        images: vec![
            ("1:1".to_string(), Some("https://cdn.example/one.png".to_string())),
            ("1:2".to_string(), None),
        ],
        err: None,
        status: None,
    };
    assert_eq!(
        r.url_for("1:1"),
        Some(&"https://cdn.example/one.png".to_string())
    );
    assert_eq!(r.url_for("1:2"), None);
    assert_eq!(r.url_for("9:9"), None);
}
