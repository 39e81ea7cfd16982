//! The command vocabulary of the client.
//!
//! These are the plain shapes of the commands and their arguments; the
//! shell around the library maps parsed command-line arguments onto
//! them and back.

use vstd::prelude::*;

verus! {

/// Authentication commands.
#[derive(Debug, Clone)]
pub enum AuthCommands {
    /// Log in with a personal access token.
    Login,
    /// Remove stored authentication.
    Logout,
    /// Check authentication status.
    Status,
}

/// File browsing commands.
#[derive(Debug, Clone)]
pub enum FilesCommands {
    /// List files in a project or projects in a team.
    List { project: Option<String>, team: Option<String> },
    /// Get file metadata.
    Get { file_key_or_url: String },
    /// Show the node tree.
    Tree { file_key_or_url: String, depth: u32 },
    /// Show version history.
    Versions { file_key_or_url: String, limit: u32 },
}

/// Export commands.
#[derive(Debug, Clone)]
pub enum ExportCommands {
    /// Export a single file or specific nodes.
    File {
        file_key_or_url: String,
        node: Vec<String>,
        all_frames: bool,
        format: ExportFormat,
        scale: u8,
        output: String,
        name: Option<String>,
    },
    /// Batch export from a manifest file.
    Batch { manifest: String },
}

/// Image formats an export may ask for.
#[derive(Debug, Clone, PartialEq, Eq, Structural)]
pub enum ExportFormat {
    Png,
    Svg,
    Pdf,
    Jpg,
}

impl ExportFormat {
    /// The format's name on the wire and in file extensions.
    pub fn as_str(&self) -> (r: &'static str)
        ensures
            self is Png ==> r@ == "png"@,
            self is Svg ==> r@ == "svg"@,
            self is Pdf ==> r@ == "pdf"@,
            self is Jpg ==> r@ == "jpg"@,
    {
        match self {
            ExportFormat::Png => "png",
            ExportFormat::Svg => "svg",
            ExportFormat::Pdf => "pdf",
            ExportFormat::Jpg => "jpg",
        }
    }
}

/// Design-token commands.
#[derive(Debug, Clone)]
pub enum TokensCommands {
    /// Extract color styles.
    Colors { file_key: String },
    /// Extract typography styles.
    Typography { file_key: String },
    /// Extract spacing values.
    Spacing { file_key: String },
    /// Export all design tokens.
    Export { file_key: String, format: TokenFormat, output: Option<String> },
}

/// Formats design tokens can be emitted in.
#[derive(Debug, Clone, PartialEq, Eq, Structural)]
pub enum TokenFormat {
    Json,
    Css,
    Swift,
    Kotlin,
}

/// Component browsing commands.
#[derive(Debug, Clone)]
pub enum ComponentsCommands {
    /// List published components of a team.
    List { team_id: String },
    /// Get component details.
    Get { component_key: String },
}

/// Arguments of the terminal preview command.
#[derive(Debug, Clone)]
pub struct PreviewArgs {
    /// File key or URL.
    pub file_key: String,
    /// Node to preview.
    pub node: Option<String>,
    /// Width in terminal columns.
    pub width: Option<u32>,
    /// Terminal image protocol.
    pub protocol: ImageProtocol,
}

/// Terminal image protocols the preview can use.
#[derive(Debug, Clone, PartialEq, Eq, Structural)]
pub enum ImageProtocol {
    Auto,
    Sixel,
    Iterm,
    Kitty,
}

/// How command output is rendered.
#[derive(Debug, Clone, Copy, PartialEq, Eq, Structural)]
pub enum OutputFormat {
    Table,
    Json,
}

impl Default for OutputFormat {
    /// Output defaults to the table rendering.
    fn default() -> (r: Self)
        ensures
            r is Table,
    {
        OutputFormat::Table
    }
}

} // verus!
