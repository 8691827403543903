//! Messages exchanged between the dictionary service and its clients.

use std::collections::HashSet;

use vstd::prelude::*;

use crate::config::Config;
use crate::jmdict;
use crate::kanjidic2;

verus! {

/// A request to the service.
pub trait Request {
    /// The kind of the request.
    fn kind() -> &'static str;
}

pub struct AnalyzeRequest {
    pub q: String,
    pub start: usize,
}

impl Request for AnalyzeRequest {
    fn kind() -> (r: &'static str)
        ensures
            r@ == "analyze"@,
    {
        "analyze"
    }
}

pub struct SearchRequest {
    pub q: String,
}

impl Request for SearchRequest {
    fn kind() -> (r: &'static str)
        ensures
            r@ == "search"@,
    {
        "search"
    }
}

pub struct InstallAllRequest;

impl Request for InstallAllRequest {
    fn kind() -> (r: &'static str)
        ensures
            r@ == "install-all"@,
    {
        "install-all"
    }
}

pub struct GetState;

impl Request for GetState {
    fn kind() -> (r: &'static str)
        ensures
            r@ == "get-state"@,
    {
        "get-state"
    }
}

pub struct GetStateResult {
    /// Installed dictionaries.
    pub installed: HashSet<String>,
}

pub struct GetConfig;

impl Request for GetConfig {
    fn kind() -> (r: &'static str)
        ensures
            r@ == "get-config"@,
    {
        "get-config"
    }
}

pub struct GetKanji {
    pub kanji: String,
}

impl Request for GetKanji {
    fn kind() -> (r: &'static str)
        ensures
            r@ == "get-kanji"@,
    {
        "get-kanji"
    }
}

/// Where to install a missing component from.
#[derive(Debug, PartialEq, Eq)]
pub struct InstallUrl {
    /// Title of the URL.
    pub text: String,
    /// Hover title.
    pub title: String,
    /// The URL where to install it from.
    pub url: String,
}

/// Missing OCR support.
#[derive(Debug, PartialEq, Eq)]
pub struct MissingOcr {
    /// The URL where to install it from.
    pub install_url: Option<InstallUrl>,
}

pub const TESSERACT_INSTALL_TEXT: &'static str = "Install Tesseract-OCR";
pub const TESSERACT_INSTALL_TITLE: &'static str = "Download and install Tesseract-OCR from UB-Mannheim.\nDon't forget to add Japanese as additional script!";
pub const TESSERACT_INSTALL_URL: &'static str = "https://github.com/UB-Mannheim/tesseract/wiki";

impl MissingOcr {
    /// How to install OCR support on this platform: Unix-like systems have
    /// no installation link.
    pub fn for_platform() -> (r: Self)
        ensures
            r.install_url is None,
    {
        Self { install_url: None }
    }

    /// How to install OCR support on Windows.
    pub fn for_windows() -> (r: Self)
        ensures
            r.install_url is Some,
            r.install_url->0.text@ == TESSERACT_INSTALL_TEXT@,
            r.install_url->0.title@ == TESSERACT_INSTALL_TITLE@,
            r.install_url->0.url@ == TESSERACT_INSTALL_URL@,
    {
        Self {
            install_url: Some(
                InstallUrl {
                    text: TESSERACT_INSTALL_TEXT.to_owned(),
                    title: TESSERACT_INSTALL_TITLE.to_owned(),
                    url: TESSERACT_INSTALL_URL.to_owned(),
                },
            ),
        }
    }
}

pub struct GetConfigResult {
    /// System configuration.
    pub config: Config,
    /// Installed dictionaries.
    pub installed: HashSet<String>,
    /// Indicates that OCR support is missing, and how to install it.
    pub missing_ocr: Option<MissingOcr>,
}

pub struct UpdateConfigRequest {
    /// Configuration update to save.
    pub config: Option<Config>,
    /// Collection of indexes to update.
    pub update_indexes: Vec<String>,
}

impl Request for UpdateConfigRequest {
    fn kind() -> (r: &'static str)
        ensures
            r@ == "update-config"@,
    {
        "update-config"
    }
}

pub struct UpdateConfigResponse {
    /// Indicates that the configuration has been updated with the given value.
    pub config: Option<Config>,
}

#[derive(Clone, Copy)]
pub struct Empty;

pub struct SendClipboard<'a> {
    pub ty: Option<&'a str>,
    pub data: &'a [u8],
}

/// Json payload when sending the clipboard.
pub struct SendClipboardJson {
    pub primary: String,
    pub secondary: Option<String>,
}

pub struct LogBackFill<'a> {
    pub log: Vec<LogEntry<'a>>,
}

pub enum BroadcastKind<'a> {
    SendClipboardData(SendClipboard<'a>),
    LogBackFill(LogBackFill<'a>),
    LogEntry(LogEntry<'a>),
    TaskProgress(TaskProgress<'a>),
    TaskCompleted(TaskCompleted<'a>),
    Refresh,
}

pub struct Broadcast<'a> {
    pub kind: BroadcastKind<'a>,
}

pub struct ClientRequestEnvelope<'de> {
    pub index: usize,
    pub serial: u32,
    pub kind: &'de str,
}

pub struct ClientResponseEnvelope<'de> {
    pub index: usize,
    pub serial: u32,
    pub error: Option<&'de str>,
}

pub enum ClientEvent<'a> {
    Broadcast(Broadcast<'a>),
    ClientResponse(ClientResponseEnvelope<'a>),
}

pub struct EntryResponse<'a> {
    pub entry: jmdict::Entry<'a>,
}

pub struct KanjiResponse<'a> {
    pub kanji: kanjidic2::Character<'a>,
    pub radicals: Vec<&'a str>,
}

pub struct LogEntry<'a> {
    /// Timestamp of the log entry in milliseconds since the unix epoch.
    pub timestamp: u64,
    /// The target being logged.
    pub target: &'a str,
    /// The level of the entry.
    pub level: &'a str,
    /// The text of the entry.
    pub text: &'a str,
}

/// A message indicating task progress.
pub struct TaskProgress<'a> {
    pub name: &'a str,
    pub value: usize,
    pub total: Option<usize>,
    pub step: usize,
    pub steps: usize,
    pub text: &'a str,
}

/// Indicates that a task has been completed.
pub struct TaskCompleted<'a> {
    pub name: &'a str,
}

} // verus!
