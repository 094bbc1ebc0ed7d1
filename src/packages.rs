//! The package table: a closed set of identifiers and, for each, its
//! metadata, dependencies, version probe and command recipes.

use crate::catalog::{CommandRecipe, ProbeView, SoftwareCategory, SoftwareKind, VersionProbe};
use vstd::prelude::*;

verus! {

/// A closed set of keys, one per manageable package.
#[derive(Clone, Copy, Debug, PartialEq, Eq, Hash, Structural)]
pub enum SoftwareId {
    Homebrew,
    XcodeCommandLineTools,
    Brave,
    Firefox,
    Chrome,
    JetBrainsToolbox,
    Cursor,
    Windsurf,
    VisualStudioCode,
    ZedStable,
    ZedPreview,
    Raycast,
    ITerm2,
    Warp,
    Alacritty,
    Fish,
    Rustup,
    RustStable,
    RustNightly,
    CargoJust,
    CargoBinstall,
    CargoWatch,
    SimpleHttpServer,
    Nvm,
    Bun,
    Go,
    Pyenv,
    Poetry,
    Uv,
    Flutter,
    AndroidStudio,
    ReactNativeCli,
    DioxusCli,
    YewCli,
    LeptosCli,
    ElectronForge,
    DockerDesktop,
    Postman,
    Yaak,
    Bruno,
    TablePlus,
    DBeaver,
    MongoDbCompass,
    RedisInsight,
    Slack,
    Discord,
    Zoom,
    Figma,
    Vlc,
    Kubectl,
    Terraform,
    AwsCli,
    AzureCli,
    Jq,
    Ripgrep,
    Fd,
    Bat,
    Fzf,
    Btop,
    Neovim,
    CodexCli,
    KimiCli,
    GeminiCli,
    QwenCli,
    OpencodeCli,
}

/// How many identifiers the catalog holds.
pub const SOFTWARE_COUNT: usize = 65;

/// The position of an identifier in the catalog's declaration order.
pub open spec fn id_index(id: SoftwareId) -> nat {
    match id {
        SoftwareId::Homebrew => 0,
        SoftwareId::XcodeCommandLineTools => 1,
        SoftwareId::Brave => 2,
        SoftwareId::Firefox => 3,
        SoftwareId::Chrome => 4,
        SoftwareId::JetBrainsToolbox => 5,
        SoftwareId::Cursor => 6,
        SoftwareId::Windsurf => 7,
        SoftwareId::VisualStudioCode => 8,
        SoftwareId::ZedStable => 9,
        SoftwareId::ZedPreview => 10,
        SoftwareId::Raycast => 11,
        SoftwareId::ITerm2 => 12,
        SoftwareId::Warp => 13,
        SoftwareId::Alacritty => 14,
        SoftwareId::Fish => 15,
        SoftwareId::Rustup => 16,
        SoftwareId::RustStable => 17,
        SoftwareId::RustNightly => 18,
        SoftwareId::CargoJust => 19,
        SoftwareId::CargoBinstall => 20,
        SoftwareId::CargoWatch => 21,
        SoftwareId::SimpleHttpServer => 22,
        SoftwareId::Nvm => 23,
        SoftwareId::Bun => 24,
        SoftwareId::Go => 25,
        SoftwareId::Pyenv => 26,
        SoftwareId::Poetry => 27,
        SoftwareId::Uv => 28,
        SoftwareId::Flutter => 29,
        SoftwareId::AndroidStudio => 30,
        SoftwareId::ReactNativeCli => 31,
        SoftwareId::DioxusCli => 32,
        SoftwareId::YewCli => 33,
        SoftwareId::LeptosCli => 34,
        SoftwareId::ElectronForge => 35,
        SoftwareId::DockerDesktop => 36,
        SoftwareId::Postman => 37,
        SoftwareId::Yaak => 38,
        SoftwareId::Bruno => 39,
        SoftwareId::TablePlus => 40,
        SoftwareId::DBeaver => 41,
        SoftwareId::MongoDbCompass => 42,
        SoftwareId::RedisInsight => 43,
        SoftwareId::Slack => 44,
        SoftwareId::Discord => 45,
        SoftwareId::Zoom => 46,
        SoftwareId::Figma => 47,
        SoftwareId::Vlc => 48,
        SoftwareId::Kubectl => 49,
        SoftwareId::Terraform => 50,
        SoftwareId::AwsCli => 51,
        SoftwareId::AzureCli => 52,
        SoftwareId::Jq => 53,
        SoftwareId::Ripgrep => 54,
        SoftwareId::Fd => 55,
        SoftwareId::Bat => 56,
        SoftwareId::Fzf => 57,
        SoftwareId::Btop => 58,
        SoftwareId::Neovim => 59,
        SoftwareId::CodexCli => 60,
        SoftwareId::KimiCli => 61,
        SoftwareId::GeminiCli => 62,
        SoftwareId::QwenCli => 63,
        SoftwareId::OpencodeCli => 64,
    }
}

/// The identifier at a position of the declaration order.
pub open spec fn id_at(i: int) -> SoftwareId {
    if i == 0 {
        SoftwareId::Homebrew
    } else if i == 1 {
        SoftwareId::XcodeCommandLineTools
    } else if i == 2 {
        SoftwareId::Brave
    } else if i == 3 {
        SoftwareId::Firefox
    } else if i == 4 {
        SoftwareId::Chrome
    } else if i == 5 {
        SoftwareId::JetBrainsToolbox
    } else if i == 6 {
        SoftwareId::Cursor
    } else if i == 7 {
        SoftwareId::Windsurf
    } else if i == 8 {
        SoftwareId::VisualStudioCode
    } else if i == 9 {
        SoftwareId::ZedStable
    } else if i == 10 {
        SoftwareId::ZedPreview
    } else if i == 11 {
        SoftwareId::Raycast
    } else if i == 12 {
        SoftwareId::ITerm2
    } else if i == 13 {
        SoftwareId::Warp
    } else if i == 14 {
        SoftwareId::Alacritty
    } else if i == 15 {
        SoftwareId::Fish
    } else if i == 16 {
        SoftwareId::Rustup
    } else if i == 17 {
        SoftwareId::RustStable
    } else if i == 18 {
        SoftwareId::RustNightly
    } else if i == 19 {
        SoftwareId::CargoJust
    } else if i == 20 {
        SoftwareId::CargoBinstall
    } else if i == 21 {
        SoftwareId::CargoWatch
    } else if i == 22 {
        SoftwareId::SimpleHttpServer
    } else if i == 23 {
        SoftwareId::Nvm
    } else if i == 24 {
        SoftwareId::Bun
    } else if i == 25 {
        SoftwareId::Go
    } else if i == 26 {
        SoftwareId::Pyenv
    } else if i == 27 {
        SoftwareId::Poetry
    } else if i == 28 {
        SoftwareId::Uv
    } else if i == 29 {
        SoftwareId::Flutter
    } else if i == 30 {
        SoftwareId::AndroidStudio
    } else if i == 31 {
        SoftwareId::ReactNativeCli
    } else if i == 32 {
        SoftwareId::DioxusCli
    } else if i == 33 {
        SoftwareId::YewCli
    } else if i == 34 {
        SoftwareId::LeptosCli
    } else if i == 35 {
        SoftwareId::ElectronForge
    } else if i == 36 {
        SoftwareId::DockerDesktop
    } else if i == 37 {
        SoftwareId::Postman
    } else if i == 38 {
        SoftwareId::Yaak
    } else if i == 39 {
        SoftwareId::Bruno
    } else if i == 40 {
        SoftwareId::TablePlus
    } else if i == 41 {
        SoftwareId::DBeaver
    } else if i == 42 {
        SoftwareId::MongoDbCompass
    } else if i == 43 {
        SoftwareId::RedisInsight
    } else if i == 44 {
        SoftwareId::Slack
    } else if i == 45 {
        SoftwareId::Discord
    } else if i == 46 {
        SoftwareId::Zoom
    } else if i == 47 {
        SoftwareId::Figma
    } else if i == 48 {
        SoftwareId::Vlc
    } else if i == 49 {
        SoftwareId::Kubectl
    } else if i == 50 {
        SoftwareId::Terraform
    } else if i == 51 {
        SoftwareId::AwsCli
    } else if i == 52 {
        SoftwareId::AzureCli
    } else if i == 53 {
        SoftwareId::Jq
    } else if i == 54 {
        SoftwareId::Ripgrep
    } else if i == 55 {
        SoftwareId::Fd
    } else if i == 56 {
        SoftwareId::Bat
    } else if i == 57 {
        SoftwareId::Fzf
    } else if i == 58 {
        SoftwareId::Btop
    } else if i == 59 {
        SoftwareId::Neovim
    } else if i == 60 {
        SoftwareId::CodexCli
    } else if i == 61 {
        SoftwareId::KimiCli
    } else if i == 62 {
        SoftwareId::GeminiCli
    } else if i == 63 {
        SoftwareId::QwenCli
    } else {
        SoftwareId::OpencodeCli
    }
}

/// Every identifier, in declaration order.
pub open spec fn all_ids() -> Seq<SoftwareId> {
    Seq::new(SOFTWARE_COUNT as nat, |i: int| id_at(i))
}

/// Positions and identifiers correspond one to one.
pub proof fn lemma_index_round_trip(id: SoftwareId)
    ensures
        id_index(id) < SOFTWARE_COUNT,
        id_at(id_index(id) as int) == id,
{
}

/// Identifiers at distinct positions are distinct.
pub proof fn lemma_at_round_trip(i: int)
    requires
        0 <= i < SOFTWARE_COUNT,
    ensures
        id_index(id_at(i)) == i,
{
}

/// The stable lookup key of a package.
pub open spec fn key_of(id: SoftwareId) -> Seq<char> {
    match id {
        SoftwareId::Homebrew => "homebrew"@,
        SoftwareId::XcodeCommandLineTools => "xcode_clt"@,
        SoftwareId::Brave => "brave"@,
        SoftwareId::Firefox => "firefox"@,
        SoftwareId::Chrome => "chrome"@,
        SoftwareId::JetBrainsToolbox => "jetbrains_toolbox"@,
        SoftwareId::Cursor => "cursor"@,
        SoftwareId::Windsurf => "windsurf"@,
        SoftwareId::VisualStudioCode => "visual_studio_code"@,
        SoftwareId::ZedStable => "zed_stable"@,
        SoftwareId::ZedPreview => "zed_preview"@,
        SoftwareId::Raycast => "raycast"@,
        SoftwareId::ITerm2 => "iterm2"@,
        SoftwareId::Warp => "warp"@,
        SoftwareId::Alacritty => "alacritty"@,
        SoftwareId::Fish => "fish"@,
        SoftwareId::Rustup => "rustup"@,
        SoftwareId::RustStable => "rust_stable"@,
        SoftwareId::RustNightly => "rust_nightly"@,
        SoftwareId::CargoJust => "cargo_just"@,
        SoftwareId::CargoBinstall => "cargo_binstall"@,
        SoftwareId::CargoWatch => "cargo_watch"@,
        SoftwareId::SimpleHttpServer => "simple_http_server"@,
        SoftwareId::Nvm => "nvm"@,
        SoftwareId::Bun => "bun"@,
        SoftwareId::Go => "go"@,
        SoftwareId::Pyenv => "pyenv"@,
        SoftwareId::Poetry => "poetry"@,
        SoftwareId::Uv => "uv"@,
        SoftwareId::Flutter => "flutter"@,
        SoftwareId::AndroidStudio => "android_studio"@,
        SoftwareId::ReactNativeCli => "react_native_cli"@,
        SoftwareId::DioxusCli => "dioxus_cli"@,
        SoftwareId::YewCli => "yew_cli"@,
        SoftwareId::LeptosCli => "leptos_cli"@,
        SoftwareId::ElectronForge => "electron_forge"@,
        SoftwareId::DockerDesktop => "docker_desktop"@,
        SoftwareId::Postman => "postman"@,
        SoftwareId::Yaak => "yaak"@,
        SoftwareId::Bruno => "bruno"@,
        SoftwareId::TablePlus => "tableplus"@,
        SoftwareId::DBeaver => "dbeaver"@,
        SoftwareId::MongoDbCompass => "mongodb_compass"@,
        SoftwareId::RedisInsight => "redis_insight"@,
        SoftwareId::Slack => "slack"@,
        SoftwareId::Discord => "discord"@,
        SoftwareId::Zoom => "zoom"@,
        SoftwareId::Figma => "figma"@,
        SoftwareId::Vlc => "vlc"@,
        SoftwareId::Kubectl => "kubectl"@,
        SoftwareId::Terraform => "terraform"@,
        SoftwareId::AwsCli => "aws_cli"@,
        SoftwareId::AzureCli => "azure_cli"@,
        SoftwareId::Jq => "jq"@,
        SoftwareId::Ripgrep => "ripgrep"@,
        SoftwareId::Fd => "fd"@,
        SoftwareId::Bat => "bat"@,
        SoftwareId::Fzf => "fzf"@,
        SoftwareId::Btop => "btop"@,
        SoftwareId::Neovim => "neovim"@,
        SoftwareId::CodexCli => "codex_cli"@,
        SoftwareId::KimiCli => "kimi_cli"@,
        SoftwareId::GeminiCli => "gemini_cli"@,
        SoftwareId::QwenCli => "qwen_cli"@,
        SoftwareId::OpencodeCli => "opencode_cli"@,
    }
}

/// The display name of a package.
pub open spec fn name_of(id: SoftwareId) -> Seq<char> {
    match id {
        SoftwareId::Homebrew => "Homebrew"@,
        SoftwareId::XcodeCommandLineTools => "Xcode Command-Line Tools"@,
        SoftwareId::Brave => "Brave Browser"@,
        SoftwareId::Firefox => "Firefox"@,
        SoftwareId::Chrome => "Google Chrome"@,
        SoftwareId::JetBrainsToolbox => "JetBrains Toolbox"@,
        SoftwareId::Cursor => "Cursor"@,
        SoftwareId::Windsurf => "Windsurf"@,
        SoftwareId::VisualStudioCode => "Visual Studio Code"@,
        SoftwareId::ZedStable => "Zed (Stable)"@,
        SoftwareId::ZedPreview => "Zed (Preview)"@,
        SoftwareId::Raycast => "Raycast"@,
        SoftwareId::ITerm2 => "iTerm2"@,
        SoftwareId::Warp => "Warp"@,
        SoftwareId::Alacritty => "Alacritty"@,
        SoftwareId::Fish => "Fish Shell"@,
        SoftwareId::Rustup => "Rustup"@,
        SoftwareId::RustStable => "Rust Toolchain (Stable)"@,
        SoftwareId::RustNightly => "Rust Toolchain (Nightly)"@,
        SoftwareId::CargoJust => "cargo-just"@,
        SoftwareId::CargoBinstall => "cargo-binstall"@,
        SoftwareId::CargoWatch => "cargo-watch"@,
        SoftwareId::SimpleHttpServer => "simple-http-server (nightly)"@,
        SoftwareId::Nvm => "Node Version Manager (nvm)"@,
        SoftwareId::Bun => "Bun Runtime"@,
        SoftwareId::Go => "Go Toolchain"@,
        SoftwareId::Pyenv => "pyenv"@,
        SoftwareId::Poetry => "Poetry"@,
        SoftwareId::Uv => "uv"@,
        SoftwareId::Flutter => "Flutter SDK"@,
        SoftwareId::AndroidStudio => "Android Studio"@,
        SoftwareId::ReactNativeCli => "React Native CLI"@,
        SoftwareId::DioxusCli => "Dioxus CLI"@,
        SoftwareId::YewCli => "Yew CLI"@,
        SoftwareId::LeptosCli => "Leptos CLI"@,
        SoftwareId::ElectronForge => "Electron Forge"@,
        SoftwareId::DockerDesktop => "Docker Desktop"@,
        SoftwareId::Postman => "Postman"@,
        SoftwareId::Yaak => "Yaak"@,
        SoftwareId::Bruno => "Bruno"@,
        SoftwareId::TablePlus => "TablePlus"@,
        SoftwareId::DBeaver => "DBeaver"@,
        SoftwareId::MongoDbCompass => "MongoDB Compass"@,
        SoftwareId::RedisInsight => "RedisInsight"@,
        SoftwareId::Slack => "Slack"@,
        SoftwareId::Discord => "Discord"@,
        SoftwareId::Zoom => "Zoom"@,
        SoftwareId::Figma => "Figma"@,
        SoftwareId::Vlc => "VLC Media Player"@,
        SoftwareId::Kubectl => "kubectl"@,
        SoftwareId::Terraform => "Terraform"@,
        SoftwareId::AwsCli => "AWS CLI"@,
        SoftwareId::AzureCli => "Azure CLI"@,
        SoftwareId::Jq => "jq"@,
        SoftwareId::Ripgrep => "ripgrep"@,
        SoftwareId::Fd => "fd"@,
        SoftwareId::Bat => "bat"@,
        SoftwareId::Fzf => "fzf"@,
        SoftwareId::Btop => "btop"@,
        SoftwareId::Neovim => "Neovim"@,
        SoftwareId::CodexCli => "Codex CLI"@,
        SoftwareId::KimiCli => "Kimi CLI"@,
        SoftwareId::GeminiCli => "Gemini CLI"@,
        SoftwareId::QwenCli => "Qwen CLI"@,
        SoftwareId::OpencodeCli => "Opencode CLI"@,
    }
}

/// A one-line description of a package.
pub open spec fn summary_of(id: SoftwareId) -> Seq<char> {
    match id {
        SoftwareId::Homebrew => "Package manager foundation for macOS."@,
        SoftwareId::XcodeCommandLineTools => "Compilers and SDK headers from Apple."@,
        SoftwareId::Brave => "Privacy-focused Chromium browser."@,
        SoftwareId::Firefox => "Mozilla's versatile browser."@,
        SoftwareId::Chrome => "Google's mainstream browser."@,
        SoftwareId::JetBrainsToolbox => "Launcher for JetBrains IDEs (including Android Studio)."@,
        SoftwareId::Cursor => "AI-native editor focused on flow with built-in agent."@,
        SoftwareId::Windsurf => "Codeium's AI pair-programming IDE."@,
        SoftwareId::VisualStudioCode => "Microsoft's extensible editor and IDE."@,
        SoftwareId::ZedStable => "Zed editor stable channel."@,
        SoftwareId::ZedPreview => "Zed editor preview channel."@,
        SoftwareId::Raycast => "Productivity command palette for macOS."@,
        SoftwareId::ITerm2 => "Popular macOS terminal replacement with advanced features."@,
        SoftwareId::Warp => "Modern terminal with AI features and collaborative editing."@,
        SoftwareId::Alacritty => "GPU-accelerated terminal emulator."@,
        SoftwareId::Fish => "User-friendly shell with autosuggestions and syntax highlighting."@,
        SoftwareId::Rustup => "Rust toolchain installer and updater."@,
        SoftwareId::RustStable => "Sets Rust stable toolchain as default."@,
        SoftwareId::RustNightly => "Installs nightly Rust toolchain."@,
        SoftwareId::CargoJust => "Handy task runner for Rust projects."@,
        SoftwareId::CargoBinstall => "Fast binary installer for cargo packages."@,
        SoftwareId::CargoWatch => "Auto compile/test watcher for Rust."@,
        SoftwareId::SimpleHttpServer => "Nightly-only HTTP dev server."@,
        SoftwareId::Nvm => "Manage multiple Node.js versions."@,
        SoftwareId::Bun => "All-in-one JS runtime/bundler."@,
        SoftwareId::Go => "Google's Go language toolchain."@,
        SoftwareId::Pyenv => "Python version manager for switching between Python versions."@,
        SoftwareId::Poetry => "Python dependency management and packaging tool."@,
        SoftwareId::Uv => "Extremely fast Python package installer and resolver."@,
        SoftwareId::Flutter => "Google's UI SDK for mobile & desktop."@,
        SoftwareId::AndroidStudio => "Google's official IDE for Android development."@,
        SoftwareId::ReactNativeCli => "React Native project scaffolding CLI."@,
        SoftwareId::DioxusCli => "Rust-based cross-platform UI tooling."@,
        SoftwareId::YewCli => "CLI helpers for Yew web apps."@,
        SoftwareId::LeptosCli => "Full-stack Leptos project manager."@,
        SoftwareId::ElectronForge => "Electron scaffolding, packaging, and release tooling."@,
        SoftwareId::DockerDesktop => "GUI and runtime for local Docker containers."@,
        SoftwareId::Postman => "API design, testing, and collaboration suite."@,
        SoftwareId::Yaak => "Lightweight REST and GraphQL API client."@,
        SoftwareId::Bruno => "Text-based API collections and testing tool."@,
        SoftwareId::TablePlus => "Modern database GUI for MySQL, PostgreSQL, SQLite, and more."@,
        SoftwareId::DBeaver => "Free universal database tool and SQL client."@,
        SoftwareId::MongoDbCompass => "GUI for MongoDB with visual query builder."@,
        SoftwareId::RedisInsight => "Redis GUI with browser and CLI."@,
        SoftwareId::Slack => "Team communication and collaboration platform."@,
        SoftwareId::Discord => "Voice, video, and text communication platform."@,
        SoftwareId::Zoom => "Video conferencing and online meetings."@,
        SoftwareId::Figma => "Collaborative interface design tool."@,
        SoftwareId::Vlc => "Open-source multimedia player."@,
        SoftwareId::Kubectl => "Kubernetes command-line tool."@,
        SoftwareId::Terraform => "Infrastructure as code tool for cloud provisioning."@,
        SoftwareId::AwsCli => "Amazon Web Services command-line interface."@,
        SoftwareId::AzureCli => "Microsoft Azure command-line interface."@,
        SoftwareId::Jq => "Lightweight command-line JSON processor."@,
        SoftwareId::Ripgrep => "Extremely fast grep alternative."@,
        SoftwareId::Fd => "Simple, fast alternative to find."@,
        SoftwareId::Bat => "Cat clone with syntax highlighting and Git integration."@,
        SoftwareId::Fzf => "General-purpose command-line fuzzy finder."@,
        SoftwareId::Btop => "Resource monitor with modern interface."@,
        SoftwareId::Neovim => "Hyperextensible Vim-based text editor."@,
        SoftwareId::CodexCli => "Command-line interface for Codex-style AI coding."@,
        SoftwareId::KimiCli => "Terminal gateway to Kimi AI assistant."@,
        SoftwareId::GeminiCli => "Interact with Google Gemini models from the CLI."@,
        SoftwareId::QwenCli => "CLI helper for Alibaba Cloud's Qwen assistants."@,
        SoftwareId::OpencodeCli => "Dispatch open-source code LLMs via CLI workflows."@,
    }
}

/// The category a package is listed under.
pub open spec fn category_name_of(id: SoftwareId) -> Seq<char> {
    match id {
        SoftwareId::Homebrew |
        SoftwareId::XcodeCommandLineTools => "System Essentials"@,
        SoftwareId::Brave |
        SoftwareId::Firefox |
        SoftwareId::Chrome => "Browsers"@,
        SoftwareId::JetBrainsToolbox |
        SoftwareId::Cursor |
        SoftwareId::Windsurf |
        SoftwareId::VisualStudioCode |
        SoftwareId::ZedStable |
        SoftwareId::ZedPreview => "Editors & IDEs"@,
        SoftwareId::Raycast |
        SoftwareId::DockerDesktop => "Desktop Utilities"@,
        SoftwareId::ITerm2 |
        SoftwareId::Warp |
        SoftwareId::Alacritty |
        SoftwareId::Fish => "Terminal & Shell"@,
        SoftwareId::Rustup |
        SoftwareId::RustStable |
        SoftwareId::RustNightly |
        SoftwareId::CargoJust |
        SoftwareId::CargoBinstall |
        SoftwareId::CargoWatch |
        SoftwareId::SimpleHttpServer |
        SoftwareId::DioxusCli |
        SoftwareId::YewCli |
        SoftwareId::LeptosCli => "Rust Stack"@,
        SoftwareId::Nvm |
        SoftwareId::Bun |
        SoftwareId::ElectronForge |
        SoftwareId::CodexCli |
        SoftwareId::KimiCli |
        SoftwareId::GeminiCli |
        SoftwareId::QwenCli |
        SoftwareId::OpencodeCli => "JavaScript & AI CLIs"@,
        SoftwareId::Go => "Languages"@,
        SoftwareId::Pyenv |
        SoftwareId::Poetry |
        SoftwareId::Uv => "Python Stack"@,
        SoftwareId::Flutter |
        SoftwareId::AndroidStudio |
        SoftwareId::ReactNativeCli => "Mobile / Cross-Platform"@,
        SoftwareId::Postman |
        SoftwareId::Yaak |
        SoftwareId::Bruno => "API & Testing"@,
        SoftwareId::TablePlus |
        SoftwareId::DBeaver |
        SoftwareId::MongoDbCompass |
        SoftwareId::RedisInsight => "Database Tools"@,
        SoftwareId::Slack |
        SoftwareId::Discord |
        SoftwareId::Zoom => "Communication"@,
        SoftwareId::Figma |
        SoftwareId::Vlc => "Design & Media"@,
        SoftwareId::Kubectl |
        SoftwareId::Terraform |
        SoftwareId::AwsCli |
        SoftwareId::AzureCli => "DevOps & Cloud"@,
        SoftwareId::Jq |
        SoftwareId::Ripgrep |
        SoftwareId::Fd |
        SoftwareId::Bat |
        SoftwareId::Fzf |
        SoftwareId::Btop |
        SoftwareId::Neovim => "CLI Utilities"@,
    }
}

/// The kind of a package.
pub open spec fn kind_of(id: SoftwareId) -> SoftwareKind {
    match id {
        SoftwareId::Homebrew |
        SoftwareId::Fish |
        SoftwareId::CargoJust |
        SoftwareId::CargoBinstall |
        SoftwareId::CargoWatch |
        SoftwareId::SimpleHttpServer |
        SoftwareId::Nvm |
        SoftwareId::Bun |
        SoftwareId::Poetry |
        SoftwareId::Uv |
        SoftwareId::ReactNativeCli |
        SoftwareId::DioxusCli |
        SoftwareId::YewCli |
        SoftwareId::LeptosCli |
        SoftwareId::ElectronForge |
        SoftwareId::Kubectl |
        SoftwareId::Terraform |
        SoftwareId::AwsCli |
        SoftwareId::AzureCli |
        SoftwareId::Jq |
        SoftwareId::Ripgrep |
        SoftwareId::Fd |
        SoftwareId::Bat |
        SoftwareId::Fzf |
        SoftwareId::Btop |
        SoftwareId::Neovim |
        SoftwareId::CodexCli |
        SoftwareId::KimiCli |
        SoftwareId::GeminiCli |
        SoftwareId::QwenCli |
        SoftwareId::OpencodeCli => SoftwareKind::CliTool,
        SoftwareId::XcodeCommandLineTools |
        SoftwareId::Rustup |
        SoftwareId::RustStable |
        SoftwareId::RustNightly |
        SoftwareId::Go |
        SoftwareId::Pyenv |
        SoftwareId::Flutter => SoftwareKind::Sdk,
        SoftwareId::Brave |
        SoftwareId::Firefox |
        SoftwareId::Chrome |
        SoftwareId::JetBrainsToolbox |
        SoftwareId::Cursor |
        SoftwareId::Windsurf |
        SoftwareId::VisualStudioCode |
        SoftwareId::ZedStable |
        SoftwareId::ZedPreview |
        SoftwareId::Raycast |
        SoftwareId::ITerm2 |
        SoftwareId::Warp |
        SoftwareId::Alacritty |
        SoftwareId::AndroidStudio |
        SoftwareId::DockerDesktop |
        SoftwareId::Postman |
        SoftwareId::Yaak |
        SoftwareId::Bruno |
        SoftwareId::TablePlus |
        SoftwareId::DBeaver |
        SoftwareId::MongoDbCompass |
        SoftwareId::RedisInsight |
        SoftwareId::Slack |
        SoftwareId::Discord |
        SoftwareId::Zoom |
        SoftwareId::Figma |
        SoftwareId::Vlc => SoftwareKind::GuiApplication,
    }
}

/// How the installed version of a package is detected.
pub open spec fn probe_of(id: SoftwareId) -> ProbeView {
    match id {
        SoftwareId::Homebrew => ProbeView::Command { program: "brew"@, args: seq!["--version"] },
        SoftwareId::XcodeCommandLineTools => ProbeView::Command { program: "xcodebuild"@, args: seq!["-version"] },
        SoftwareId::Brave => ProbeView::Mdls { path: "/Applications/Brave Browser.app"@ },
        SoftwareId::Firefox => ProbeView::Mdls { path: "/Applications/Firefox.app"@ },
        SoftwareId::Chrome => ProbeView::Mdls { path: "/Applications/Google Chrome.app"@ },
        SoftwareId::JetBrainsToolbox => ProbeView::Mdls { path: "/Applications/JetBrains Toolbox.app"@ },
        SoftwareId::Cursor => ProbeView::Mdls { path: "/Applications/Cursor.app"@ },
        SoftwareId::Windsurf => ProbeView::Mdls { path: "/Applications/Windsurf.app"@ },
        SoftwareId::VisualStudioCode => ProbeView::Mdls { path: "/Applications/Visual Studio Code.app"@ },
        SoftwareId::ZedStable => ProbeView::Mdls { path: "/Applications/Zed.app"@ },
        SoftwareId::ZedPreview => ProbeView::Mdls { path: "/Applications/Zed Preview.app"@ },
        SoftwareId::Raycast => ProbeView::Mdls { path: "/Applications/Raycast.app"@ },
        SoftwareId::ITerm2 => ProbeView::Mdls { path: "/Applications/iTerm.app"@ },
        SoftwareId::Warp => ProbeView::Mdls { path: "/Applications/Warp.app"@ },
        SoftwareId::Alacritty => ProbeView::Mdls { path: "/Applications/Alacritty.app"@ },
        SoftwareId::Fish => ProbeView::Command { program: "fish"@, args: seq!["--version"] },
        SoftwareId::Rustup => ProbeView::Command { program: "rustup"@, args: seq!["--version"] },
        SoftwareId::RustStable => ProbeView::Command { program: "rustup"@, args: seq!["run", "stable", "rustc", "--version"] },
        SoftwareId::RustNightly => ProbeView::Command { program: "rustup"@, args: seq!["run", "nightly", "rustc", "--version"] },
        SoftwareId::CargoJust => ProbeView::Command { program: "just"@, args: seq!["--version"] },
        SoftwareId::CargoBinstall => ProbeView::Command { program: "cargo-binstall"@, args: seq!["--version"] },
        SoftwareId::CargoWatch => ProbeView::Command { program: "cargo-watch"@, args: seq!["--version"] },
        SoftwareId::SimpleHttpServer => ProbeView::Command { program: "simple-http-server"@, args: seq!["--version"] },
        SoftwareId::Nvm => ProbeView::Manual("Run `nvm --version` after sourcing your shell profile."@),
        SoftwareId::Bun => ProbeView::Command { program: "bun"@, args: seq!["--version"] },
        SoftwareId::Go => ProbeView::BrewList { package: "go"@ },
        SoftwareId::Pyenv => ProbeView::Command { program: "pyenv"@, args: seq!["--version"] },
        SoftwareId::Poetry => ProbeView::Command { program: "poetry"@, args: seq!["--version"] },
        SoftwareId::Uv => ProbeView::Command { program: "uv"@, args: seq!["--version"] },
        SoftwareId::Flutter => ProbeView::BrewList { package: "flutter"@ },
        SoftwareId::AndroidStudio => ProbeView::Mdls { path: "/Applications/Android Studio.app"@ },
        SoftwareId::ReactNativeCli => ProbeView::Command { program: "react-native"@, args: seq!["--version"] },
        SoftwareId::DioxusCli => ProbeView::Command { program: "dioxus"@, args: seq!["--version"] },
        SoftwareId::YewCli => ProbeView::Command { program: "trunk"@, args: seq!["--version"] },
        SoftwareId::LeptosCli => ProbeView::Command { program: "cargo-leptos"@, args: seq!["--version"] },
        SoftwareId::ElectronForge => ProbeView::Command { program: "electron-forge"@, args: seq!["--version"] },
        SoftwareId::DockerDesktop => ProbeView::Mdls { path: "/Applications/Docker.app"@ },
        SoftwareId::Postman => ProbeView::Mdls { path: "/Applications/Postman.app"@ },
        SoftwareId::Yaak => ProbeView::Mdls { path: "/Applications/Yaak.app"@ },
        SoftwareId::Bruno => ProbeView::Mdls { path: "/Applications/Bruno.app"@ },
        SoftwareId::TablePlus => ProbeView::Mdls { path: "/Applications/TablePlus.app"@ },
        SoftwareId::DBeaver => ProbeView::Mdls { path: "/Applications/DBeaver.app"@ },
        SoftwareId::MongoDbCompass => ProbeView::Mdls { path: "/Applications/MongoDB Compass.app"@ },
        SoftwareId::RedisInsight => ProbeView::Mdls { path: "/Applications/RedisInsight.app"@ },
        SoftwareId::Slack => ProbeView::Mdls { path: "/Applications/Slack.app"@ },
        SoftwareId::Discord => ProbeView::Mdls { path: "/Applications/Discord.app"@ },
        SoftwareId::Zoom => ProbeView::Mdls { path: "/Applications/zoom.us.app"@ },
        SoftwareId::Figma => ProbeView::Mdls { path: "/Applications/Figma.app"@ },
        SoftwareId::Vlc => ProbeView::Mdls { path: "/Applications/VLC.app"@ },
        SoftwareId::Kubectl => ProbeView::Command { program: "kubectl"@, args: seq!["version", "--client", "--short"] },
        SoftwareId::Terraform => ProbeView::Command { program: "terraform"@, args: seq!["--version"] },
        SoftwareId::AwsCli => ProbeView::Command { program: "aws"@, args: seq!["--version"] },
        SoftwareId::AzureCli => ProbeView::Command { program: "az"@, args: seq!["--version"] },
        SoftwareId::Jq => ProbeView::Command { program: "jq"@, args: seq!["--version"] },
        SoftwareId::Ripgrep => ProbeView::Command { program: "rg"@, args: seq!["--version"] },
        SoftwareId::Fd => ProbeView::Command { program: "fd"@, args: seq!["--version"] },
        SoftwareId::Bat => ProbeView::Command { program: "bat"@, args: seq!["--version"] },
        SoftwareId::Fzf => ProbeView::Command { program: "fzf"@, args: seq!["--version"] },
        SoftwareId::Btop => ProbeView::Command { program: "btop"@, args: seq!["--version"] },
        SoftwareId::Neovim => ProbeView::Command { program: "nvim"@, args: seq!["--version"] },
        SoftwareId::CodexCli => ProbeView::Command { program: "codex"@, args: seq!["--version"] },
        SoftwareId::KimiCli => ProbeView::Command { program: "kimi"@, args: seq!["--version"] },
        SoftwareId::GeminiCli => ProbeView::Command { program: "gemini"@, args: seq!["--version"] },
        SoftwareId::QwenCli => ProbeView::Command { program: "qwen"@, args: seq!["--version"] },
        SoftwareId::OpencodeCli => ProbeView::Command { program: "opencode"@, args: seq!["--version"] },
    }
}

/// The direct dependencies of a package.
pub open spec fn deps_of(id: SoftwareId) -> Seq<SoftwareId> {
    match id {
        SoftwareId::Homebrew |
        SoftwareId::XcodeCommandLineTools |
        SoftwareId::Rustup |
        SoftwareId::Nvm |
        SoftwareId::Bun |
        SoftwareId::Pyenv => seq![],
        SoftwareId::Brave |
        SoftwareId::Firefox |
        SoftwareId::Chrome |
        SoftwareId::JetBrainsToolbox |
        SoftwareId::Cursor |
        SoftwareId::Windsurf |
        SoftwareId::VisualStudioCode |
        SoftwareId::ZedStable |
        SoftwareId::ZedPreview |
        SoftwareId::Raycast |
        SoftwareId::ITerm2 |
        SoftwareId::Warp |
        SoftwareId::Alacritty |
        SoftwareId::Fish |
        SoftwareId::Go |
        SoftwareId::Flutter |
        SoftwareId::AndroidStudio |
        SoftwareId::DockerDesktop |
        SoftwareId::Postman |
        SoftwareId::Yaak |
        SoftwareId::Bruno |
        SoftwareId::TablePlus |
        SoftwareId::DBeaver |
        SoftwareId::MongoDbCompass |
        SoftwareId::RedisInsight |
        SoftwareId::Slack |
        SoftwareId::Discord |
        SoftwareId::Zoom |
        SoftwareId::Figma |
        SoftwareId::Vlc |
        SoftwareId::Kubectl |
        SoftwareId::Terraform |
        SoftwareId::AwsCli |
        SoftwareId::AzureCli |
        SoftwareId::Jq |
        SoftwareId::Ripgrep |
        SoftwareId::Fd |
        SoftwareId::Bat |
        SoftwareId::Fzf |
        SoftwareId::Btop |
        SoftwareId::Neovim => seq![SoftwareId::Homebrew],
        SoftwareId::RustStable |
        SoftwareId::RustNightly |
        SoftwareId::CargoJust |
        SoftwareId::CargoBinstall |
        SoftwareId::CargoWatch |
        SoftwareId::SimpleHttpServer |
        SoftwareId::DioxusCli |
        SoftwareId::YewCli |
        SoftwareId::LeptosCli => seq![SoftwareId::Rustup],
        SoftwareId::Poetry |
        SoftwareId::Uv => seq![SoftwareId::Pyenv],
        SoftwareId::ReactNativeCli |
        SoftwareId::ElectronForge |
        SoftwareId::CodexCli |
        SoftwareId::KimiCli |
        SoftwareId::GeminiCli |
        SoftwareId::QwenCli |
        SoftwareId::OpencodeCli => seq![SoftwareId::Nvm],
    }
}

/// The primary install recipe of a package.
pub open spec fn install_recipe_of(id: SoftwareId) -> CommandRecipe {
    match id {
        SoftwareId::Homebrew => CommandRecipe::Shell("/bin/bash -c \"$(curl -fsSL https://raw.githubusercontent.com/Homebrew/install/HEAD/install.sh)\""),
        SoftwareId::XcodeCommandLineTools => CommandRecipe::Shell("xcode-select --install"),
        SoftwareId::Brave => CommandRecipe::Shell("brew install --cask brave-browser"),
        SoftwareId::Firefox => CommandRecipe::Shell("brew install --cask firefox"),
        SoftwareId::Chrome => CommandRecipe::Shell("brew install --cask google-chrome"),
        SoftwareId::JetBrainsToolbox => CommandRecipe::Shell("brew install --cask jetbrains-toolbox"),
        SoftwareId::Cursor => CommandRecipe::Shell("brew install --cask cursor"),
        SoftwareId::Windsurf => CommandRecipe::Shell("brew install --cask windsurf"),
        SoftwareId::VisualStudioCode => CommandRecipe::Shell("brew install --cask visual-studio-code"),
        SoftwareId::ZedStable => CommandRecipe::Shell("brew install --cask zed"),
        SoftwareId::ZedPreview => CommandRecipe::Shell("brew install --cask zed@preview"),
        SoftwareId::Raycast => CommandRecipe::Shell("brew install --cask raycast"),
        SoftwareId::ITerm2 => CommandRecipe::Shell("brew install --cask iterm2"),
        SoftwareId::Warp => CommandRecipe::Shell("brew install --cask warp"),
        SoftwareId::Alacritty => CommandRecipe::Shell("brew install --cask alacritty"),
        SoftwareId::Fish => CommandRecipe::Shell("brew install fish"),
        SoftwareId::Rustup => CommandRecipe::Shell("curl --proto '=https' --tlsv1.2 -sSf https://sh.rustup.rs | sh -s -- -y"),
        SoftwareId::RustStable => CommandRecipe::Shell("rustup toolchain install stable && rustup default stable"),
        SoftwareId::RustNightly => CommandRecipe::Shell("rustup toolchain install nightly"),
        SoftwareId::CargoJust => CommandRecipe::Shell("cargo install just"),
        SoftwareId::CargoBinstall => CommandRecipe::Shell("cargo install cargo-binstall"),
        SoftwareId::CargoWatch => CommandRecipe::Shell("cargo install cargo-watch"),
        SoftwareId::SimpleHttpServer => CommandRecipe::Shell("cargo +nightly install simple-http-server"),
        SoftwareId::Nvm => CommandRecipe::Shell("curl -o- https://raw.githubusercontent.com/nvm-sh/nvm/v0.40.1/install.sh | bash"),
        SoftwareId::Bun => CommandRecipe::Shell("curl -fsSL https://bun.sh/install | bash"),
        SoftwareId::Go => CommandRecipe::Shell("brew install go"),
        SoftwareId::Pyenv => CommandRecipe::Shell("brew install pyenv"),
        SoftwareId::Poetry => CommandRecipe::Shell("curl -sSL https://install.python-poetry.org | python3 -"),
        SoftwareId::Uv => CommandRecipe::Shell("curl -LsSf https://astral.sh/uv/install.sh | sh"),
        SoftwareId::Flutter => CommandRecipe::Shell("brew install --cask flutter"),
        SoftwareId::AndroidStudio => CommandRecipe::Shell("brew install --cask android-studio"),
        SoftwareId::ReactNativeCli => CommandRecipe::Shell("npm install -g react-native-cli"),
        SoftwareId::DioxusCli => CommandRecipe::Shell("cargo install dioxus-cli"),
        SoftwareId::YewCli => CommandRecipe::Shell("rustup target add wasm32-unknown-unknown && cargo install trunk"),
        SoftwareId::LeptosCli => CommandRecipe::Shell("rustup target add wasm32-unknown-unknown && cargo install cargo-leptos"),
        SoftwareId::ElectronForge => CommandRecipe::Shell("npm install -g @electron-forge/cli"),
        SoftwareId::DockerDesktop => CommandRecipe::Shell("brew install --cask docker"),
        SoftwareId::Postman => CommandRecipe::Shell("brew install --cask postman"),
        SoftwareId::Yaak => CommandRecipe::Shell("brew install --cask yaak"),
        SoftwareId::Bruno => CommandRecipe::Shell("brew install --cask bruno"),
        SoftwareId::TablePlus => CommandRecipe::Shell("brew install --cask tableplus"),
        SoftwareId::DBeaver => CommandRecipe::Shell("brew install --cask dbeaver-community"),
        SoftwareId::MongoDbCompass => CommandRecipe::Shell("brew install --cask mongodb-compass"),
        SoftwareId::RedisInsight => CommandRecipe::Shell("brew install --cask redisinsight"),
        SoftwareId::Slack => CommandRecipe::Shell("brew install --cask slack"),
        SoftwareId::Discord => CommandRecipe::Shell("brew install --cask discord"),
        SoftwareId::Zoom => CommandRecipe::Shell("brew install --cask zoom"),
        SoftwareId::Figma => CommandRecipe::Shell("brew install --cask figma"),
        SoftwareId::Vlc => CommandRecipe::Shell("brew install --cask vlc"),
        SoftwareId::Kubectl => CommandRecipe::Shell("brew install kubectl"),
        SoftwareId::Terraform => CommandRecipe::Shell("brew install terraform"),
        SoftwareId::AwsCli => CommandRecipe::Shell("brew install awscli"),
        SoftwareId::AzureCli => CommandRecipe::Shell("brew install azure-cli"),
        SoftwareId::Jq => CommandRecipe::Shell("brew install jq"),
        SoftwareId::Ripgrep => CommandRecipe::Shell("brew install ripgrep"),
        SoftwareId::Fd => CommandRecipe::Shell("brew install fd"),
        SoftwareId::Bat => CommandRecipe::Shell("brew install bat"),
        SoftwareId::Fzf => CommandRecipe::Shell("brew install fzf"),
        SoftwareId::Btop => CommandRecipe::Shell("brew install btop"),
        SoftwareId::Neovim => CommandRecipe::Shell("brew install neovim"),
        SoftwareId::CodexCli => CommandRecipe::Shell("npm install -g codex-cli"),
        SoftwareId::KimiCli => CommandRecipe::Shell("npm install -g kimi-cli"),
        SoftwareId::GeminiCli => CommandRecipe::Shell("npm install -g gemini-cli"),
        SoftwareId::QwenCli => CommandRecipe::Shell("npm install -g qwen-cli"),
        SoftwareId::OpencodeCli => CommandRecipe::Shell("npm install -g opencode-cli"),
    }
}

/// The primary update recipe of a package.
pub open spec fn update_recipe_of(id: SoftwareId) -> CommandRecipe {
    match id {
        SoftwareId::Homebrew => CommandRecipe::Shell("brew update && brew upgrade"),
        SoftwareId::XcodeCommandLineTools => CommandRecipe::Manual("Use Software Update or run `softwareupdate --all --install --force`."),
        SoftwareId::Brave => CommandRecipe::Shell("brew upgrade --cask brave-browser"),
        SoftwareId::Firefox => CommandRecipe::Shell("brew upgrade --cask firefox"),
        SoftwareId::Chrome => CommandRecipe::Shell("brew upgrade --cask google-chrome"),
        SoftwareId::JetBrainsToolbox => CommandRecipe::Shell("brew upgrade --cask jetbrains-toolbox"),
        SoftwareId::Cursor => CommandRecipe::Shell("brew upgrade --cask cursor"),
        SoftwareId::Windsurf => CommandRecipe::Shell("brew upgrade --cask windsurf"),
        SoftwareId::VisualStudioCode => CommandRecipe::Shell("brew upgrade --cask visual-studio-code"),
        SoftwareId::ZedStable => CommandRecipe::Shell("brew upgrade --cask zed"),
        SoftwareId::ZedPreview => CommandRecipe::Shell("brew upgrade --cask zed@preview"),
        SoftwareId::Raycast => CommandRecipe::Shell("brew upgrade --cask raycast"),
        SoftwareId::ITerm2 => CommandRecipe::Shell("brew upgrade --cask iterm2"),
        SoftwareId::Warp => CommandRecipe::Shell("brew upgrade --cask warp"),
        SoftwareId::Alacritty => CommandRecipe::Shell("brew upgrade --cask alacritty"),
        SoftwareId::Fish => CommandRecipe::Shell("brew upgrade fish"),
        SoftwareId::Rustup => CommandRecipe::Shell("rustup self update && rustup update"),
        SoftwareId::RustStable => CommandRecipe::Shell("rustup update stable"),
        SoftwareId::RustNightly => CommandRecipe::Shell("rustup update nightly"),
        SoftwareId::CargoJust => CommandRecipe::Shell("cargo install just --force"),
        SoftwareId::CargoBinstall => CommandRecipe::Shell("cargo install cargo-binstall --force"),
        SoftwareId::CargoWatch => CommandRecipe::Shell("cargo install cargo-watch --force"),
        SoftwareId::SimpleHttpServer => CommandRecipe::Shell("cargo +nightly install simple-http-server --force"),
        SoftwareId::Nvm => CommandRecipe::Manual("Pull the latest nvm via git or rerun the installer script."),
        SoftwareId::Bun => CommandRecipe::Shell("bun upgrade"),
        SoftwareId::Go => CommandRecipe::Shell("brew upgrade go"),
        SoftwareId::Pyenv => CommandRecipe::Shell("brew upgrade pyenv"),
        SoftwareId::Poetry => CommandRecipe::Shell("poetry self update"),
        SoftwareId::Uv => CommandRecipe::Shell("curl -LsSf https://astral.sh/uv/install.sh | sh"),
        SoftwareId::Flutter => CommandRecipe::Shell("flutter upgrade"),
        SoftwareId::AndroidStudio => CommandRecipe::Shell("brew upgrade --cask android-studio"),
        SoftwareId::ReactNativeCli => CommandRecipe::Shell("npm update -g react-native-cli"),
        SoftwareId::DioxusCli => CommandRecipe::Shell("cargo install dioxus-cli --force"),
        SoftwareId::YewCli => CommandRecipe::Shell("cargo install trunk --force"),
        SoftwareId::LeptosCli => CommandRecipe::Shell("cargo install cargo-leptos --force"),
        SoftwareId::ElectronForge => CommandRecipe::Shell("npm update -g @electron-forge/cli"),
        SoftwareId::DockerDesktop => CommandRecipe::Shell("brew upgrade --cask docker"),
        SoftwareId::Postman => CommandRecipe::Shell("brew upgrade --cask postman"),
        SoftwareId::Yaak => CommandRecipe::Shell("brew upgrade --cask yaak"),
        SoftwareId::Bruno => CommandRecipe::Shell("brew upgrade --cask bruno"),
        SoftwareId::TablePlus => CommandRecipe::Shell("brew upgrade --cask tableplus"),
        SoftwareId::DBeaver => CommandRecipe::Shell("brew upgrade --cask dbeaver-community"),
        SoftwareId::MongoDbCompass => CommandRecipe::Shell("brew upgrade --cask mongodb-compass"),
        SoftwareId::RedisInsight => CommandRecipe::Shell("brew upgrade --cask redisinsight"),
        SoftwareId::Slack => CommandRecipe::Shell("brew upgrade --cask slack"),
        SoftwareId::Discord => CommandRecipe::Shell("brew upgrade --cask discord"),
        SoftwareId::Zoom => CommandRecipe::Shell("brew upgrade --cask zoom"),
        SoftwareId::Figma => CommandRecipe::Shell("brew upgrade --cask figma"),
        SoftwareId::Vlc => CommandRecipe::Shell("brew upgrade --cask vlc"),
        SoftwareId::Kubectl => CommandRecipe::Shell("brew upgrade kubectl"),
        SoftwareId::Terraform => CommandRecipe::Shell("brew upgrade terraform"),
        SoftwareId::AwsCli => CommandRecipe::Shell("brew upgrade awscli"),
        SoftwareId::AzureCli => CommandRecipe::Shell("brew upgrade azure-cli"),
        SoftwareId::Jq => CommandRecipe::Shell("brew upgrade jq"),
        SoftwareId::Ripgrep => CommandRecipe::Shell("brew upgrade ripgrep"),
        SoftwareId::Fd => CommandRecipe::Shell("brew upgrade fd"),
        SoftwareId::Bat => CommandRecipe::Shell("brew upgrade bat"),
        SoftwareId::Fzf => CommandRecipe::Shell("brew upgrade fzf"),
        SoftwareId::Btop => CommandRecipe::Shell("brew upgrade btop"),
        SoftwareId::Neovim => CommandRecipe::Shell("brew upgrade neovim"),
        SoftwareId::CodexCli => CommandRecipe::Shell("npm update -g codex-cli"),
        SoftwareId::KimiCli => CommandRecipe::Shell("npm update -g kimi-cli"),
        SoftwareId::GeminiCli => CommandRecipe::Shell("npm update -g gemini-cli"),
        SoftwareId::QwenCli => CommandRecipe::Shell("npm update -g qwen-cli"),
        SoftwareId::OpencodeCli => CommandRecipe::Shell("npm update -g opencode-cli"),
    }
}

/// The primary uninstall recipe of a package.
pub open spec fn uninstall_recipe_of(id: SoftwareId) -> CommandRecipe {
    match id {
        SoftwareId::Homebrew => CommandRecipe::Manual("Follow https://docs.brew.sh/FAQ#how-do-i-uninstall-homebrew"),
        SoftwareId::XcodeCommandLineTools => CommandRecipe::Shell("sudo rm -rf /Library/Developer/CommandLineTools"),
        SoftwareId::Brave => CommandRecipe::Shell("brew uninstall --cask brave-browser"),
        SoftwareId::Firefox => CommandRecipe::Shell("brew uninstall --cask firefox"),
        SoftwareId::Chrome => CommandRecipe::Shell("brew uninstall --cask google-chrome"),
        SoftwareId::JetBrainsToolbox => CommandRecipe::Shell("brew uninstall --cask jetbrains-toolbox"),
        SoftwareId::Cursor => CommandRecipe::Shell("brew uninstall --cask cursor"),
        SoftwareId::Windsurf => CommandRecipe::Shell("brew uninstall --cask windsurf"),
        SoftwareId::VisualStudioCode => CommandRecipe::Shell("brew uninstall --cask visual-studio-code"),
        SoftwareId::ZedStable => CommandRecipe::Shell("brew uninstall --cask zed"),
        SoftwareId::ZedPreview => CommandRecipe::Shell("brew uninstall --cask zed@preview"),
        SoftwareId::Raycast => CommandRecipe::Shell("brew uninstall --cask raycast"),
        SoftwareId::ITerm2 => CommandRecipe::Shell("brew uninstall --cask iterm2"),
        SoftwareId::Warp => CommandRecipe::Shell("brew uninstall --cask warp"),
        SoftwareId::Alacritty => CommandRecipe::Shell("brew uninstall --cask alacritty"),
        SoftwareId::Fish => CommandRecipe::Shell("brew uninstall fish"),
        SoftwareId::Rustup => CommandRecipe::Shell("rustup self uninstall -y"),
        SoftwareId::RustStable => CommandRecipe::Shell("rustup toolchain uninstall stable"),
        SoftwareId::RustNightly => CommandRecipe::Shell("rustup toolchain uninstall nightly"),
        SoftwareId::CargoJust => CommandRecipe::Shell("cargo uninstall just"),
        SoftwareId::CargoBinstall => CommandRecipe::Shell("cargo uninstall cargo-binstall"),
        SoftwareId::CargoWatch => CommandRecipe::Shell("cargo uninstall cargo-watch"),
        SoftwareId::SimpleHttpServer => CommandRecipe::Shell("cargo uninstall simple-http-server"),
        SoftwareId::Nvm => CommandRecipe::Manual("Remove ~/.nvm and related shell profile entries."),
        SoftwareId::Bun => CommandRecipe::Manual("Remove ~/.bun and PATH exports."),
        SoftwareId::Go => CommandRecipe::Shell("brew uninstall go"),
        SoftwareId::Pyenv => CommandRecipe::Shell("brew uninstall pyenv"),
        SoftwareId::Poetry => CommandRecipe::Manual("Run: curl -sSL https://install.python-poetry.org | python3 - --uninstall"),
        SoftwareId::Uv => CommandRecipe::Manual("Remove ~/.cargo/bin/uv and related files."),
        SoftwareId::Flutter => CommandRecipe::Shell("brew uninstall --cask flutter"),
        SoftwareId::AndroidStudio => CommandRecipe::Shell("brew uninstall --cask android-studio"),
        SoftwareId::ReactNativeCli => CommandRecipe::Shell("npm uninstall -g react-native-cli"),
        SoftwareId::DioxusCli => CommandRecipe::Shell("cargo uninstall dioxus-cli"),
        SoftwareId::YewCli => CommandRecipe::Shell("cargo uninstall trunk"),
        SoftwareId::LeptosCli => CommandRecipe::Shell("cargo uninstall cargo-leptos"),
        SoftwareId::ElectronForge => CommandRecipe::Shell("npm uninstall -g @electron-forge/cli"),
        SoftwareId::DockerDesktop => CommandRecipe::Shell("brew uninstall --cask docker"),
        SoftwareId::Postman => CommandRecipe::Shell("brew uninstall --cask postman"),
        SoftwareId::Yaak => CommandRecipe::Shell("brew uninstall --cask yaak"),
        SoftwareId::Bruno => CommandRecipe::Shell("brew uninstall --cask bruno"),
        SoftwareId::TablePlus => CommandRecipe::Shell("brew uninstall --cask tableplus"),
        SoftwareId::DBeaver => CommandRecipe::Shell("brew uninstall --cask dbeaver-community"),
        SoftwareId::MongoDbCompass => CommandRecipe::Shell("brew uninstall --cask mongodb-compass"),
        SoftwareId::RedisInsight => CommandRecipe::Shell("brew uninstall --cask redisinsight"),
        SoftwareId::Slack => CommandRecipe::Shell("brew uninstall --cask slack"),
        SoftwareId::Discord => CommandRecipe::Shell("brew uninstall --cask discord"),
        SoftwareId::Zoom => CommandRecipe::Shell("brew uninstall --cask zoom"),
        SoftwareId::Figma => CommandRecipe::Shell("brew uninstall --cask figma"),
        SoftwareId::Vlc => CommandRecipe::Shell("brew uninstall --cask vlc"),
        SoftwareId::Kubectl => CommandRecipe::Shell("brew uninstall kubectl"),
        SoftwareId::Terraform => CommandRecipe::Shell("brew uninstall terraform"),
        SoftwareId::AwsCli => CommandRecipe::Shell("brew uninstall awscli"),
        SoftwareId::AzureCli => CommandRecipe::Shell("brew uninstall azure-cli"),
        SoftwareId::Jq => CommandRecipe::Shell("brew uninstall jq"),
        SoftwareId::Ripgrep => CommandRecipe::Shell("brew uninstall ripgrep"),
        SoftwareId::Fd => CommandRecipe::Shell("brew uninstall fd"),
        SoftwareId::Bat => CommandRecipe::Shell("brew uninstall bat"),
        SoftwareId::Fzf => CommandRecipe::Shell("brew uninstall fzf"),
        SoftwareId::Btop => CommandRecipe::Shell("brew uninstall btop"),
        SoftwareId::Neovim => CommandRecipe::Shell("brew uninstall neovim"),
        SoftwareId::CodexCli => CommandRecipe::Shell("npm uninstall -g codex-cli"),
        SoftwareId::KimiCli => CommandRecipe::Shell("npm uninstall -g kimi-cli"),
        SoftwareId::GeminiCli => CommandRecipe::Shell("npm uninstall -g gemini-cli"),
        SoftwareId::QwenCli => CommandRecipe::Shell("npm uninstall -g qwen-cli"),
        SoftwareId::OpencodeCli => CommandRecipe::Shell("npm uninstall -g opencode-cli"),
    }
}

/// The fallback install recipes of a package, after the primary one.
pub open spec fn extra_install_of(id: SoftwareId) -> Seq<CommandRecipe> {
    match id {
        SoftwareId::Homebrew |
        SoftwareId::XcodeCommandLineTools |
        SoftwareId::Brave |
        SoftwareId::Firefox |
        SoftwareId::Chrome |
        SoftwareId::JetBrainsToolbox |
        SoftwareId::Windsurf |
        SoftwareId::ZedStable |
        SoftwareId::ZedPreview |
        SoftwareId::Raycast |
        SoftwareId::ITerm2 |
        SoftwareId::Warp |
        SoftwareId::Alacritty |
        SoftwareId::Fish |
        SoftwareId::Rustup |
        SoftwareId::RustStable |
        SoftwareId::RustNightly |
        SoftwareId::CargoJust |
        SoftwareId::CargoBinstall |
        SoftwareId::CargoWatch |
        SoftwareId::SimpleHttpServer |
        SoftwareId::Nvm |
        SoftwareId::Bun |
        SoftwareId::Go |
        SoftwareId::Pyenv |
        SoftwareId::Poetry |
        SoftwareId::Uv |
        SoftwareId::ReactNativeCli |
        SoftwareId::DioxusCli |
        SoftwareId::YewCli |
        SoftwareId::LeptosCli |
        SoftwareId::ElectronForge |
        SoftwareId::DockerDesktop |
        SoftwareId::Postman |
        SoftwareId::Yaak |
        SoftwareId::Bruno |
        SoftwareId::TablePlus |
        SoftwareId::DBeaver |
        SoftwareId::MongoDbCompass |
        SoftwareId::RedisInsight |
        SoftwareId::Slack |
        SoftwareId::Discord |
        SoftwareId::Zoom |
        SoftwareId::Figma |
        SoftwareId::Vlc |
        SoftwareId::Kubectl |
        SoftwareId::Terraform |
        SoftwareId::AwsCli |
        SoftwareId::AzureCli |
        SoftwareId::Jq |
        SoftwareId::Ripgrep |
        SoftwareId::Fd |
        SoftwareId::Bat |
        SoftwareId::Fzf |
        SoftwareId::Btop |
        SoftwareId::Neovim |
        SoftwareId::CodexCli |
        SoftwareId::KimiCli |
        SoftwareId::GeminiCli |
        SoftwareId::QwenCli |
        SoftwareId::OpencodeCli => seq![],
        SoftwareId::Cursor => seq![CommandRecipe::Manual("Download Cursor from cursor.sh and drag it into /Applications.")],
        SoftwareId::VisualStudioCode => seq![CommandRecipe::Manual("Download VS Code from code.visualstudio.com and drag it into /Applications.")],
        SoftwareId::Flutter => seq![CommandRecipe::Manual("Download Flutter SDK archive from flutter.dev/docs/get-started/install and add it manually.")],
        SoftwareId::AndroidStudio => seq![CommandRecipe::Manual("Download Android Studio dmg from developer.android.com and move it to /Applications.")],
    }
}

impl SoftwareId {
    /// Every identifier, in declaration order.
    pub fn all() -> (r: Vec<SoftwareId>)
        ensures
            r@ == all_ids(),
    {
        let r = vec![
            SoftwareId::Homebrew,
            SoftwareId::XcodeCommandLineTools,
            SoftwareId::Brave,
            SoftwareId::Firefox,
            SoftwareId::Chrome,
            SoftwareId::JetBrainsToolbox,
            SoftwareId::Cursor,
            SoftwareId::Windsurf,
            SoftwareId::VisualStudioCode,
            SoftwareId::ZedStable,
            SoftwareId::ZedPreview,
            SoftwareId::Raycast,
            SoftwareId::ITerm2,
            SoftwareId::Warp,
            SoftwareId::Alacritty,
            SoftwareId::Fish,
            SoftwareId::Rustup,
            SoftwareId::RustStable,
            SoftwareId::RustNightly,
            SoftwareId::CargoJust,
            SoftwareId::CargoBinstall,
            SoftwareId::CargoWatch,
            SoftwareId::SimpleHttpServer,
            SoftwareId::Nvm,
            SoftwareId::Bun,
            SoftwareId::Go,
            SoftwareId::Pyenv,
            SoftwareId::Poetry,
            SoftwareId::Uv,
            SoftwareId::Flutter,
            SoftwareId::AndroidStudio,
            SoftwareId::ReactNativeCli,
            SoftwareId::DioxusCli,
            SoftwareId::YewCli,
            SoftwareId::LeptosCli,
            SoftwareId::ElectronForge,
            SoftwareId::DockerDesktop,
            SoftwareId::Postman,
            SoftwareId::Yaak,
            SoftwareId::Bruno,
            SoftwareId::TablePlus,
            SoftwareId::DBeaver,
            SoftwareId::MongoDbCompass,
            SoftwareId::RedisInsight,
            SoftwareId::Slack,
            SoftwareId::Discord,
            SoftwareId::Zoom,
            SoftwareId::Figma,
            SoftwareId::Vlc,
            SoftwareId::Kubectl,
            SoftwareId::Terraform,
            SoftwareId::AwsCli,
            SoftwareId::AzureCli,
            SoftwareId::Jq,
            SoftwareId::Ripgrep,
            SoftwareId::Fd,
            SoftwareId::Bat,
            SoftwareId::Fzf,
            SoftwareId::Btop,
            SoftwareId::Neovim,
            SoftwareId::CodexCli,
            SoftwareId::KimiCli,
            SoftwareId::GeminiCli,
            SoftwareId::QwenCli,
            SoftwareId::OpencodeCli,
        ];
        assert(r@ =~= all_ids());
        r
    }

    /// The position of this identifier in declaration order.
    pub fn index(&self) -> (r: usize)
        ensures
            r == id_index(*self),
            r < SOFTWARE_COUNT,
    {
        match self {
            SoftwareId::Homebrew => 0,
            SoftwareId::XcodeCommandLineTools => 1,
            SoftwareId::Brave => 2,
            SoftwareId::Firefox => 3,
            SoftwareId::Chrome => 4,
            SoftwareId::JetBrainsToolbox => 5,
            SoftwareId::Cursor => 6,
            SoftwareId::Windsurf => 7,
            SoftwareId::VisualStudioCode => 8,
            SoftwareId::ZedStable => 9,
            SoftwareId::ZedPreview => 10,
            SoftwareId::Raycast => 11,
            SoftwareId::ITerm2 => 12,
            SoftwareId::Warp => 13,
            SoftwareId::Alacritty => 14,
            SoftwareId::Fish => 15,
            SoftwareId::Rustup => 16,
            SoftwareId::RustStable => 17,
            SoftwareId::RustNightly => 18,
            SoftwareId::CargoJust => 19,
            SoftwareId::CargoBinstall => 20,
            SoftwareId::CargoWatch => 21,
            SoftwareId::SimpleHttpServer => 22,
            SoftwareId::Nvm => 23,
            SoftwareId::Bun => 24,
            SoftwareId::Go => 25,
            SoftwareId::Pyenv => 26,
            SoftwareId::Poetry => 27,
            SoftwareId::Uv => 28,
            SoftwareId::Flutter => 29,
            SoftwareId::AndroidStudio => 30,
            SoftwareId::ReactNativeCli => 31,
            SoftwareId::DioxusCli => 32,
            SoftwareId::YewCli => 33,
            SoftwareId::LeptosCli => 34,
            SoftwareId::ElectronForge => 35,
            SoftwareId::DockerDesktop => 36,
            SoftwareId::Postman => 37,
            SoftwareId::Yaak => 38,
            SoftwareId::Bruno => 39,
            SoftwareId::TablePlus => 40,
            SoftwareId::DBeaver => 41,
            SoftwareId::MongoDbCompass => 42,
            SoftwareId::RedisInsight => 43,
            SoftwareId::Slack => 44,
            SoftwareId::Discord => 45,
            SoftwareId::Zoom => 46,
            SoftwareId::Figma => 47,
            SoftwareId::Vlc => 48,
            SoftwareId::Kubectl => 49,
            SoftwareId::Terraform => 50,
            SoftwareId::AwsCli => 51,
            SoftwareId::AzureCli => 52,
            SoftwareId::Jq => 53,
            SoftwareId::Ripgrep => 54,
            SoftwareId::Fd => 55,
            SoftwareId::Bat => 56,
            SoftwareId::Fzf => 57,
            SoftwareId::Btop => 58,
            SoftwareId::Neovim => 59,
            SoftwareId::CodexCli => 60,
            SoftwareId::KimiCli => 61,
            SoftwareId::GeminiCli => 62,
            SoftwareId::QwenCli => 63,
            SoftwareId::OpencodeCli => 64,
        }
    }

    /// The identifier at a position of declaration order.
    pub fn from_index(i: usize) -> (r: SoftwareId)
        requires
            i < SOFTWARE_COUNT,
        ensures
            r == id_at(i as int),
            id_index(r) == i,
    {
        let all = SoftwareId::all();
        all[i]
    }

    pub fn key(&self) -> (r: &'static str)
        ensures
            r@ == key_of(*self),
    {
        match self {
            SoftwareId::Homebrew => "homebrew",
            SoftwareId::XcodeCommandLineTools => "xcode_clt",
            SoftwareId::Brave => "brave",
            SoftwareId::Firefox => "firefox",
            SoftwareId::Chrome => "chrome",
            SoftwareId::JetBrainsToolbox => "jetbrains_toolbox",
            SoftwareId::Cursor => "cursor",
            SoftwareId::Windsurf => "windsurf",
            SoftwareId::VisualStudioCode => "visual_studio_code",
            SoftwareId::ZedStable => "zed_stable",
            SoftwareId::ZedPreview => "zed_preview",
            SoftwareId::Raycast => "raycast",
            SoftwareId::ITerm2 => "iterm2",
            SoftwareId::Warp => "warp",
            SoftwareId::Alacritty => "alacritty",
            SoftwareId::Fish => "fish",
            SoftwareId::Rustup => "rustup",
            SoftwareId::RustStable => "rust_stable",
            SoftwareId::RustNightly => "rust_nightly",
            SoftwareId::CargoJust => "cargo_just",
            SoftwareId::CargoBinstall => "cargo_binstall",
            SoftwareId::CargoWatch => "cargo_watch",
            SoftwareId::SimpleHttpServer => "simple_http_server",
            SoftwareId::Nvm => "nvm",
            SoftwareId::Bun => "bun",
            SoftwareId::Go => "go",
            SoftwareId::Pyenv => "pyenv",
            SoftwareId::Poetry => "poetry",
            SoftwareId::Uv => "uv",
            SoftwareId::Flutter => "flutter",
            SoftwareId::AndroidStudio => "android_studio",
            SoftwareId::ReactNativeCli => "react_native_cli",
            SoftwareId::DioxusCli => "dioxus_cli",
            SoftwareId::YewCli => "yew_cli",
            SoftwareId::LeptosCli => "leptos_cli",
            SoftwareId::ElectronForge => "electron_forge",
            SoftwareId::DockerDesktop => "docker_desktop",
            SoftwareId::Postman => "postman",
            SoftwareId::Yaak => "yaak",
            SoftwareId::Bruno => "bruno",
            SoftwareId::TablePlus => "tableplus",
            SoftwareId::DBeaver => "dbeaver",
            SoftwareId::MongoDbCompass => "mongodb_compass",
            SoftwareId::RedisInsight => "redis_insight",
            SoftwareId::Slack => "slack",
            SoftwareId::Discord => "discord",
            SoftwareId::Zoom => "zoom",
            SoftwareId::Figma => "figma",
            SoftwareId::Vlc => "vlc",
            SoftwareId::Kubectl => "kubectl",
            SoftwareId::Terraform => "terraform",
            SoftwareId::AwsCli => "aws_cli",
            SoftwareId::AzureCli => "azure_cli",
            SoftwareId::Jq => "jq",
            SoftwareId::Ripgrep => "ripgrep",
            SoftwareId::Fd => "fd",
            SoftwareId::Bat => "bat",
            SoftwareId::Fzf => "fzf",
            SoftwareId::Btop => "btop",
            SoftwareId::Neovim => "neovim",
            SoftwareId::CodexCli => "codex_cli",
            SoftwareId::KimiCli => "kimi_cli",
            SoftwareId::GeminiCli => "gemini_cli",
            SoftwareId::QwenCli => "qwen_cli",
            SoftwareId::OpencodeCli => "opencode_cli",
        }
    }

    pub fn name(&self) -> (r: &'static str)
        ensures
            r@ == name_of(*self),
    {
        match self {
            SoftwareId::Homebrew => "Homebrew",
            SoftwareId::XcodeCommandLineTools => "Xcode Command-Line Tools",
            SoftwareId::Brave => "Brave Browser",
            SoftwareId::Firefox => "Firefox",
            SoftwareId::Chrome => "Google Chrome",
            SoftwareId::JetBrainsToolbox => "JetBrains Toolbox",
            SoftwareId::Cursor => "Cursor",
            SoftwareId::Windsurf => "Windsurf",
            SoftwareId::VisualStudioCode => "Visual Studio Code",
            SoftwareId::ZedStable => "Zed (Stable)",
            SoftwareId::ZedPreview => "Zed (Preview)",
            SoftwareId::Raycast => "Raycast",
            SoftwareId::ITerm2 => "iTerm2",
            SoftwareId::Warp => "Warp",
            SoftwareId::Alacritty => "Alacritty",
            SoftwareId::Fish => "Fish Shell",
            SoftwareId::Rustup => "Rustup",
            SoftwareId::RustStable => "Rust Toolchain (Stable)",
            SoftwareId::RustNightly => "Rust Toolchain (Nightly)",
            SoftwareId::CargoJust => "cargo-just",
            SoftwareId::CargoBinstall => "cargo-binstall",
            SoftwareId::CargoWatch => "cargo-watch",
            SoftwareId::SimpleHttpServer => "simple-http-server (nightly)",
            SoftwareId::Nvm => "Node Version Manager (nvm)",
            SoftwareId::Bun => "Bun Runtime",
            SoftwareId::Go => "Go Toolchain",
            SoftwareId::Pyenv => "pyenv",
            SoftwareId::Poetry => "Poetry",
            SoftwareId::Uv => "uv",
            SoftwareId::Flutter => "Flutter SDK",
            SoftwareId::AndroidStudio => "Android Studio",
            SoftwareId::ReactNativeCli => "React Native CLI",
            SoftwareId::DioxusCli => "Dioxus CLI",
            SoftwareId::YewCli => "Yew CLI",
            SoftwareId::LeptosCli => "Leptos CLI",
            SoftwareId::ElectronForge => "Electron Forge",
            SoftwareId::DockerDesktop => "Docker Desktop",
            SoftwareId::Postman => "Postman",
            SoftwareId::Yaak => "Yaak",
            SoftwareId::Bruno => "Bruno",
            SoftwareId::TablePlus => "TablePlus",
            SoftwareId::DBeaver => "DBeaver",
            SoftwareId::MongoDbCompass => "MongoDB Compass",
            SoftwareId::RedisInsight => "RedisInsight",
            SoftwareId::Slack => "Slack",
            SoftwareId::Discord => "Discord",
            SoftwareId::Zoom => "Zoom",
            SoftwareId::Figma => "Figma",
            SoftwareId::Vlc => "VLC Media Player",
            SoftwareId::Kubectl => "kubectl",
            SoftwareId::Terraform => "Terraform",
            SoftwareId::AwsCli => "AWS CLI",
            SoftwareId::AzureCli => "Azure CLI",
            SoftwareId::Jq => "jq",
            SoftwareId::Ripgrep => "ripgrep",
            SoftwareId::Fd => "fd",
            SoftwareId::Bat => "bat",
            SoftwareId::Fzf => "fzf",
            SoftwareId::Btop => "btop",
            SoftwareId::Neovim => "Neovim",
            SoftwareId::CodexCli => "Codex CLI",
            SoftwareId::KimiCli => "Kimi CLI",
            SoftwareId::GeminiCli => "Gemini CLI",
            SoftwareId::QwenCli => "Qwen CLI",
            SoftwareId::OpencodeCli => "Opencode CLI",
        }
    }

    pub fn summary(&self) -> (r: &'static str)
        ensures
            r@ == summary_of(*self),
    {
        match self {
            SoftwareId::Homebrew => "Package manager foundation for macOS.",
            SoftwareId::XcodeCommandLineTools => "Compilers and SDK headers from Apple.",
            SoftwareId::Brave => "Privacy-focused Chromium browser.",
            SoftwareId::Firefox => "Mozilla's versatile browser.",
            SoftwareId::Chrome => "Google's mainstream browser.",
            SoftwareId::JetBrainsToolbox => "Launcher for JetBrains IDEs (including Android Studio).",
            SoftwareId::Cursor => "AI-native editor focused on flow with built-in agent.",
            SoftwareId::Windsurf => "Codeium's AI pair-programming IDE.",
            SoftwareId::VisualStudioCode => "Microsoft's extensible editor and IDE.",
            SoftwareId::ZedStable => "Zed editor stable channel.",
            SoftwareId::ZedPreview => "Zed editor preview channel.",
            SoftwareId::Raycast => "Productivity command palette for macOS.",
            SoftwareId::ITerm2 => "Popular macOS terminal replacement with advanced features.",
            SoftwareId::Warp => "Modern terminal with AI features and collaborative editing.",
            SoftwareId::Alacritty => "GPU-accelerated terminal emulator.",
            SoftwareId::Fish => "User-friendly shell with autosuggestions and syntax highlighting.",
            SoftwareId::Rustup => "Rust toolchain installer and updater.",
            SoftwareId::RustStable => "Sets Rust stable toolchain as default.",
            SoftwareId::RustNightly => "Installs nightly Rust toolchain.",
            SoftwareId::CargoJust => "Handy task runner for Rust projects.",
            SoftwareId::CargoBinstall => "Fast binary installer for cargo packages.",
            SoftwareId::CargoWatch => "Auto compile/test watcher for Rust.",
            SoftwareId::SimpleHttpServer => "Nightly-only HTTP dev server.",
            SoftwareId::Nvm => "Manage multiple Node.js versions.",
            SoftwareId::Bun => "All-in-one JS runtime/bundler.",
            SoftwareId::Go => "Google's Go language toolchain.",
            SoftwareId::Pyenv => "Python version manager for switching between Python versions.",
            SoftwareId::Poetry => "Python dependency management and packaging tool.",
            SoftwareId::Uv => "Extremely fast Python package installer and resolver.",
            SoftwareId::Flutter => "Google's UI SDK for mobile & desktop.",
            SoftwareId::AndroidStudio => "Google's official IDE for Android development.",
            SoftwareId::ReactNativeCli => "React Native project scaffolding CLI.",
            SoftwareId::DioxusCli => "Rust-based cross-platform UI tooling.",
            SoftwareId::YewCli => "CLI helpers for Yew web apps.",
            SoftwareId::LeptosCli => "Full-stack Leptos project manager.",
            SoftwareId::ElectronForge => "Electron scaffolding, packaging, and release tooling.",
            SoftwareId::DockerDesktop => "GUI and runtime for local Docker containers.",
            SoftwareId::Postman => "API design, testing, and collaboration suite.",
            SoftwareId::Yaak => "Lightweight REST and GraphQL API client.",
            SoftwareId::Bruno => "Text-based API collections and testing tool.",
            SoftwareId::TablePlus => "Modern database GUI for MySQL, PostgreSQL, SQLite, and more.",
            SoftwareId::DBeaver => "Free universal database tool and SQL client.",
            SoftwareId::MongoDbCompass => "GUI for MongoDB with visual query builder.",
            SoftwareId::RedisInsight => "Redis GUI with browser and CLI.",
            SoftwareId::Slack => "Team communication and collaboration platform.",
            SoftwareId::Discord => "Voice, video, and text communication platform.",
            SoftwareId::Zoom => "Video conferencing and online meetings.",
            SoftwareId::Figma => "Collaborative interface design tool.",
            SoftwareId::Vlc => "Open-source multimedia player.",
            SoftwareId::Kubectl => "Kubernetes command-line tool.",
            SoftwareId::Terraform => "Infrastructure as code tool for cloud provisioning.",
            SoftwareId::AwsCli => "Amazon Web Services command-line interface.",
            SoftwareId::AzureCli => "Microsoft Azure command-line interface.",
            SoftwareId::Jq => "Lightweight command-line JSON processor.",
            SoftwareId::Ripgrep => "Extremely fast grep alternative.",
            SoftwareId::Fd => "Simple, fast alternative to find.",
            SoftwareId::Bat => "Cat clone with syntax highlighting and Git integration.",
            SoftwareId::Fzf => "General-purpose command-line fuzzy finder.",
            SoftwareId::Btop => "Resource monitor with modern interface.",
            SoftwareId::Neovim => "Hyperextensible Vim-based text editor.",
            SoftwareId::CodexCli => "Command-line interface for Codex-style AI coding.",
            SoftwareId::KimiCli => "Terminal gateway to Kimi AI assistant.",
            SoftwareId::GeminiCli => "Interact with Google Gemini models from the CLI.",
            SoftwareId::QwenCli => "CLI helper for Alibaba Cloud's Qwen assistants.",
            SoftwareId::OpencodeCli => "Dispatch open-source code LLMs via CLI workflows.",
        }
    }

    pub fn category_name(&self) -> (r: &'static str)
        ensures
            r@ == category_name_of(*self),
    {
        match self {
            SoftwareId::Homebrew |
            SoftwareId::XcodeCommandLineTools => "System Essentials",
            SoftwareId::Brave |
            SoftwareId::Firefox |
            SoftwareId::Chrome => "Browsers",
            SoftwareId::JetBrainsToolbox |
            SoftwareId::Cursor |
            SoftwareId::Windsurf |
            SoftwareId::VisualStudioCode |
            SoftwareId::ZedStable |
            SoftwareId::ZedPreview => "Editors & IDEs",
            SoftwareId::Raycast |
            SoftwareId::DockerDesktop => "Desktop Utilities",
            SoftwareId::ITerm2 |
            SoftwareId::Warp |
            SoftwareId::Alacritty |
            SoftwareId::Fish => "Terminal & Shell",
            SoftwareId::Rustup |
            SoftwareId::RustStable |
            SoftwareId::RustNightly |
            SoftwareId::CargoJust |
            SoftwareId::CargoBinstall |
            SoftwareId::CargoWatch |
            SoftwareId::SimpleHttpServer |
            SoftwareId::DioxusCli |
            SoftwareId::YewCli |
            SoftwareId::LeptosCli => "Rust Stack",
            SoftwareId::Nvm |
            SoftwareId::Bun |
            SoftwareId::ElectronForge |
            SoftwareId::CodexCli |
            SoftwareId::KimiCli |
            SoftwareId::GeminiCli |
            SoftwareId::QwenCli |
            SoftwareId::OpencodeCli => "JavaScript & AI CLIs",
            SoftwareId::Go => "Languages",
            SoftwareId::Pyenv |
            SoftwareId::Poetry |
            SoftwareId::Uv => "Python Stack",
            SoftwareId::Flutter |
            SoftwareId::AndroidStudio |
            SoftwareId::ReactNativeCli => "Mobile / Cross-Platform",
            SoftwareId::Postman |
            SoftwareId::Yaak |
            SoftwareId::Bruno => "API & Testing",
            SoftwareId::TablePlus |
            SoftwareId::DBeaver |
            SoftwareId::MongoDbCompass |
            SoftwareId::RedisInsight => "Database Tools",
            SoftwareId::Slack |
            SoftwareId::Discord |
            SoftwareId::Zoom => "Communication",
            SoftwareId::Figma |
            SoftwareId::Vlc => "Design & Media",
            SoftwareId::Kubectl |
            SoftwareId::Terraform |
            SoftwareId::AwsCli |
            SoftwareId::AzureCli => "DevOps & Cloud",
            SoftwareId::Jq |
            SoftwareId::Ripgrep |
            SoftwareId::Fd |
            SoftwareId::Bat |
            SoftwareId::Fzf |
            SoftwareId::Btop |
            SoftwareId::Neovim => "CLI Utilities",
        }
    }

    pub fn kind(&self) -> (r: SoftwareKind)
        ensures
            r == kind_of(*self),
    {
        match self {
            SoftwareId::Homebrew |
            SoftwareId::Fish |
            SoftwareId::CargoJust |
            SoftwareId::CargoBinstall |
            SoftwareId::CargoWatch |
            SoftwareId::SimpleHttpServer |
            SoftwareId::Nvm |
            SoftwareId::Bun |
            SoftwareId::Poetry |
            SoftwareId::Uv |
            SoftwareId::ReactNativeCli |
            SoftwareId::DioxusCli |
            SoftwareId::YewCli |
            SoftwareId::LeptosCli |
            SoftwareId::ElectronForge |
            SoftwareId::Kubectl |
            SoftwareId::Terraform |
            SoftwareId::AwsCli |
            SoftwareId::AzureCli |
            SoftwareId::Jq |
            SoftwareId::Ripgrep |
            SoftwareId::Fd |
            SoftwareId::Bat |
            SoftwareId::Fzf |
            SoftwareId::Btop |
            SoftwareId::Neovim |
            SoftwareId::CodexCli |
            SoftwareId::KimiCli |
            SoftwareId::GeminiCli |
            SoftwareId::QwenCli |
            SoftwareId::OpencodeCli => SoftwareKind::CliTool,
            SoftwareId::XcodeCommandLineTools |
            SoftwareId::Rustup |
            SoftwareId::RustStable |
            SoftwareId::RustNightly |
            SoftwareId::Go |
            SoftwareId::Pyenv |
            SoftwareId::Flutter => SoftwareKind::Sdk,
            SoftwareId::Brave |
            SoftwareId::Firefox |
            SoftwareId::Chrome |
            SoftwareId::JetBrainsToolbox |
            SoftwareId::Cursor |
            SoftwareId::Windsurf |
            SoftwareId::VisualStudioCode |
            SoftwareId::ZedStable |
            SoftwareId::ZedPreview |
            SoftwareId::Raycast |
            SoftwareId::ITerm2 |
            SoftwareId::Warp |
            SoftwareId::Alacritty |
            SoftwareId::AndroidStudio |
            SoftwareId::DockerDesktop |
            SoftwareId::Postman |
            SoftwareId::Yaak |
            SoftwareId::Bruno |
            SoftwareId::TablePlus |
            SoftwareId::DBeaver |
            SoftwareId::MongoDbCompass |
            SoftwareId::RedisInsight |
            SoftwareId::Slack |
            SoftwareId::Discord |
            SoftwareId::Zoom |
            SoftwareId::Figma |
            SoftwareId::Vlc => SoftwareKind::GuiApplication,
        }
    }

    pub fn dependencies(&self) -> (r: Vec<SoftwareId>)
        ensures
            r@ == deps_of(*self),
    {
        match self {
            SoftwareId::Homebrew |
            SoftwareId::XcodeCommandLineTools |
            SoftwareId::Rustup |
            SoftwareId::Nvm |
            SoftwareId::Bun |
            SoftwareId::Pyenv => vec![],
            SoftwareId::Brave |
            SoftwareId::Firefox |
            SoftwareId::Chrome |
            SoftwareId::JetBrainsToolbox |
            SoftwareId::Cursor |
            SoftwareId::Windsurf |
            SoftwareId::VisualStudioCode |
            SoftwareId::ZedStable |
            SoftwareId::ZedPreview |
            SoftwareId::Raycast |
            SoftwareId::ITerm2 |
            SoftwareId::Warp |
            SoftwareId::Alacritty |
            SoftwareId::Fish |
            SoftwareId::Go |
            SoftwareId::Flutter |
            SoftwareId::AndroidStudio |
            SoftwareId::DockerDesktop |
            SoftwareId::Postman |
            SoftwareId::Yaak |
            SoftwareId::Bruno |
            SoftwareId::TablePlus |
            SoftwareId::DBeaver |
            SoftwareId::MongoDbCompass |
            SoftwareId::RedisInsight |
            SoftwareId::Slack |
            SoftwareId::Discord |
            SoftwareId::Zoom |
            SoftwareId::Figma |
            SoftwareId::Vlc |
            SoftwareId::Kubectl |
            SoftwareId::Terraform |
            SoftwareId::AwsCli |
            SoftwareId::AzureCli |
            SoftwareId::Jq |
            SoftwareId::Ripgrep |
            SoftwareId::Fd |
            SoftwareId::Bat |
            SoftwareId::Fzf |
            SoftwareId::Btop |
            SoftwareId::Neovim => vec![SoftwareId::Homebrew],
            SoftwareId::RustStable |
            SoftwareId::RustNightly |
            SoftwareId::CargoJust |
            SoftwareId::CargoBinstall |
            SoftwareId::CargoWatch |
            SoftwareId::SimpleHttpServer |
            SoftwareId::DioxusCli |
            SoftwareId::YewCli |
            SoftwareId::LeptosCli => vec![SoftwareId::Rustup],
            SoftwareId::Poetry |
            SoftwareId::Uv => vec![SoftwareId::Pyenv],
            SoftwareId::ReactNativeCli |
            SoftwareId::ElectronForge |
            SoftwareId::CodexCli |
            SoftwareId::KimiCli |
            SoftwareId::GeminiCli |
            SoftwareId::QwenCli |
            SoftwareId::OpencodeCli => vec![SoftwareId::Nvm],
        }
    }

    /// How the installed version of this package is detected.
    pub fn version_probe(&self) -> (r: VersionProbe)
        ensures
            r@ == probe_of(*self),
    {
        match self {
            SoftwareId::Homebrew => {
                let args = vec!["--version"];
                assert(args@ == seq!["--version"]);
                VersionProbe::Command { program: "brew", args }
            },
            SoftwareId::XcodeCommandLineTools => {
                let args = vec!["-version"];
                assert(args@ == seq!["-version"]);
                VersionProbe::Command { program: "xcodebuild", args }
            },
            SoftwareId::Brave => VersionProbe::Mdls { path: "/Applications/Brave Browser.app" },
            SoftwareId::Firefox => VersionProbe::Mdls { path: "/Applications/Firefox.app" },
            SoftwareId::Chrome => VersionProbe::Mdls { path: "/Applications/Google Chrome.app" },
            SoftwareId::JetBrainsToolbox => VersionProbe::Mdls { path: "/Applications/JetBrains Toolbox.app" },
            SoftwareId::Cursor => VersionProbe::Mdls { path: "/Applications/Cursor.app" },
            SoftwareId::Windsurf => VersionProbe::Mdls { path: "/Applications/Windsurf.app" },
            SoftwareId::VisualStudioCode => VersionProbe::Mdls { path: "/Applications/Visual Studio Code.app" },
            SoftwareId::ZedStable => VersionProbe::Mdls { path: "/Applications/Zed.app" },
            SoftwareId::ZedPreview => VersionProbe::Mdls { path: "/Applications/Zed Preview.app" },
            SoftwareId::Raycast => VersionProbe::Mdls { path: "/Applications/Raycast.app" },
            SoftwareId::ITerm2 => VersionProbe::Mdls { path: "/Applications/iTerm.app" },
            SoftwareId::Warp => VersionProbe::Mdls { path: "/Applications/Warp.app" },
            SoftwareId::Alacritty => VersionProbe::Mdls { path: "/Applications/Alacritty.app" },
            SoftwareId::Fish => {
                let args = vec!["--version"];
                assert(args@ == seq!["--version"]);
                VersionProbe::Command { program: "fish", args }
            },
            SoftwareId::Rustup => {
                let args = vec!["--version"];
                assert(args@ == seq!["--version"]);
                VersionProbe::Command { program: "rustup", args }
            },
            SoftwareId::RustStable => {
                let args = vec!["run", "stable", "rustc", "--version"];
                assert(args@ == seq!["run", "stable", "rustc", "--version"]);
                VersionProbe::Command { program: "rustup", args }
            },
            SoftwareId::RustNightly => {
                let args = vec!["run", "nightly", "rustc", "--version"];
                assert(args@ == seq!["run", "nightly", "rustc", "--version"]);
                VersionProbe::Command { program: "rustup", args }
            },
            SoftwareId::CargoJust => {
                let args = vec!["--version"];
                assert(args@ == seq!["--version"]);
                VersionProbe::Command { program: "just", args }
            },
            SoftwareId::CargoBinstall => {
                let args = vec!["--version"];
                assert(args@ == seq!["--version"]);
                VersionProbe::Command { program: "cargo-binstall", args }
            },
            SoftwareId::CargoWatch => {
                let args = vec!["--version"];
                assert(args@ == seq!["--version"]);
                VersionProbe::Command { program: "cargo-watch", args }
            },
            SoftwareId::SimpleHttpServer => {
                let args = vec!["--version"];
                assert(args@ == seq!["--version"]);
                VersionProbe::Command { program: "simple-http-server", args }
            },
            SoftwareId::Nvm => VersionProbe::Manual("Run `nvm --version` after sourcing your shell profile."),
            SoftwareId::Bun => {
                let args = vec!["--version"];
                assert(args@ == seq!["--version"]);
                VersionProbe::Command { program: "bun", args }
            },
            SoftwareId::Go => VersionProbe::BrewList { package: "go" },
            SoftwareId::Pyenv => {
                let args = vec!["--version"];
                assert(args@ == seq!["--version"]);
                VersionProbe::Command { program: "pyenv", args }
            },
            SoftwareId::Poetry => {
                let args = vec!["--version"];
                assert(args@ == seq!["--version"]);
                VersionProbe::Command { program: "poetry", args }
            },
            SoftwareId::Uv => {
                let args = vec!["--version"];
                assert(args@ == seq!["--version"]);
                VersionProbe::Command { program: "uv", args }
            },
            SoftwareId::Flutter => VersionProbe::BrewList { package: "flutter" },
            SoftwareId::AndroidStudio => VersionProbe::Mdls { path: "/Applications/Android Studio.app" },
            SoftwareId::ReactNativeCli => {
                let args = vec!["--version"];
                assert(args@ == seq!["--version"]);
                VersionProbe::Command { program: "react-native", args }
            },
            SoftwareId::DioxusCli => {
                let args = vec!["--version"];
                assert(args@ == seq!["--version"]);
                VersionProbe::Command { program: "dioxus", args }
            },
            SoftwareId::YewCli => {
                let args = vec!["--version"];
                assert(args@ == seq!["--version"]);
                VersionProbe::Command { program: "trunk", args }
            },
            SoftwareId::LeptosCli => {
                let args = vec!["--version"];
                assert(args@ == seq!["--version"]);
                VersionProbe::Command { program: "cargo-leptos", args }
            },
            SoftwareId::ElectronForge => {
                let args = vec!["--version"];
                assert(args@ == seq!["--version"]);
                VersionProbe::Command { program: "electron-forge", args }
            },
            SoftwareId::DockerDesktop => VersionProbe::Mdls { path: "/Applications/Docker.app" },
            SoftwareId::Postman => VersionProbe::Mdls { path: "/Applications/Postman.app" },
            SoftwareId::Yaak => VersionProbe::Mdls { path: "/Applications/Yaak.app" },
            SoftwareId::Bruno => VersionProbe::Mdls { path: "/Applications/Bruno.app" },
            SoftwareId::TablePlus => VersionProbe::Mdls { path: "/Applications/TablePlus.app" },
            SoftwareId::DBeaver => VersionProbe::Mdls { path: "/Applications/DBeaver.app" },
            SoftwareId::MongoDbCompass => VersionProbe::Mdls { path: "/Applications/MongoDB Compass.app" },
            SoftwareId::RedisInsight => VersionProbe::Mdls { path: "/Applications/RedisInsight.app" },
            SoftwareId::Slack => VersionProbe::Mdls { path: "/Applications/Slack.app" },
            SoftwareId::Discord => VersionProbe::Mdls { path: "/Applications/Discord.app" },
            SoftwareId::Zoom => VersionProbe::Mdls { path: "/Applications/zoom.us.app" },
            SoftwareId::Figma => VersionProbe::Mdls { path: "/Applications/Figma.app" },
            SoftwareId::Vlc => VersionProbe::Mdls { path: "/Applications/VLC.app" },
            SoftwareId::Kubectl => {
                let args = vec!["version", "--client", "--short"];
                assert(args@ == seq!["version", "--client", "--short"]);
                VersionProbe::Command { program: "kubectl", args }
            },
            SoftwareId::Terraform => {
                let args = vec!["--version"];
                assert(args@ == seq!["--version"]);
                VersionProbe::Command { program: "terraform", args }
            },
            SoftwareId::AwsCli => {
                let args = vec!["--version"];
                assert(args@ == seq!["--version"]);
                VersionProbe::Command { program: "aws", args }
            },
            SoftwareId::AzureCli => {
                let args = vec!["--version"];
                assert(args@ == seq!["--version"]);
                VersionProbe::Command { program: "az", args }
            },
            SoftwareId::Jq => {
                let args = vec!["--version"];
                assert(args@ == seq!["--version"]);
                VersionProbe::Command { program: "jq", args }
            },
            SoftwareId::Ripgrep => {
                let args = vec!["--version"];
                assert(args@ == seq!["--version"]);
                VersionProbe::Command { program: "rg", args }
            },
            SoftwareId::Fd => {
                let args = vec!["--version"];
                assert(args@ == seq!["--version"]);
                VersionProbe::Command { program: "fd", args }
            },
            SoftwareId::Bat => {
                let args = vec!["--version"];
                assert(args@ == seq!["--version"]);
                VersionProbe::Command { program: "bat", args }
            },
            SoftwareId::Fzf => {
                let args = vec!["--version"];
                assert(args@ == seq!["--version"]);
                VersionProbe::Command { program: "fzf", args }
            },
            SoftwareId::Btop => {
                let args = vec!["--version"];
                assert(args@ == seq!["--version"]);
                VersionProbe::Command { program: "btop", args }
            },
            SoftwareId::Neovim => {
                let args = vec!["--version"];
                assert(args@ == seq!["--version"]);
                VersionProbe::Command { program: "nvim", args }
            },
            SoftwareId::CodexCli => {
                let args = vec!["--version"];
                assert(args@ == seq!["--version"]);
                VersionProbe::Command { program: "codex", args }
            },
            SoftwareId::KimiCli => {
                let args = vec!["--version"];
                assert(args@ == seq!["--version"]);
                VersionProbe::Command { program: "kimi", args }
            },
            SoftwareId::GeminiCli => {
                let args = vec!["--version"];
                assert(args@ == seq!["--version"]);
                VersionProbe::Command { program: "gemini", args }
            },
            SoftwareId::QwenCli => {
                let args = vec!["--version"];
                assert(args@ == seq!["--version"]);
                VersionProbe::Command { program: "qwen", args }
            },
            SoftwareId::OpencodeCli => {
                let args = vec!["--version"];
                assert(args@ == seq!["--version"]);
                VersionProbe::Command { program: "opencode", args }
            },
        }
    }

    pub fn install_recipe(&self) -> (r: CommandRecipe)
        ensures
            r == install_recipe_of(*self),
    {
        match self {
            SoftwareId::Homebrew => CommandRecipe::Shell("/bin/bash -c \"$(curl -fsSL https://raw.githubusercontent.com/Homebrew/install/HEAD/install.sh)\""),
            SoftwareId::XcodeCommandLineTools => CommandRecipe::Shell("xcode-select --install"),
            SoftwareId::Brave => CommandRecipe::Shell("brew install --cask brave-browser"),
            SoftwareId::Firefox => CommandRecipe::Shell("brew install --cask firefox"),
            SoftwareId::Chrome => CommandRecipe::Shell("brew install --cask google-chrome"),
            SoftwareId::JetBrainsToolbox => CommandRecipe::Shell("brew install --cask jetbrains-toolbox"),
            SoftwareId::Cursor => CommandRecipe::Shell("brew install --cask cursor"),
            SoftwareId::Windsurf => CommandRecipe::Shell("brew install --cask windsurf"),
            SoftwareId::VisualStudioCode => CommandRecipe::Shell("brew install --cask visual-studio-code"),
            SoftwareId::ZedStable => CommandRecipe::Shell("brew install --cask zed"),
            SoftwareId::ZedPreview => CommandRecipe::Shell("brew install --cask zed@preview"),
            SoftwareId::Raycast => CommandRecipe::Shell("brew install --cask raycast"),
            SoftwareId::ITerm2 => CommandRecipe::Shell("brew install --cask iterm2"),
            SoftwareId::Warp => CommandRecipe::Shell("brew install --cask warp"),
            SoftwareId::Alacritty => CommandRecipe::Shell("brew install --cask alacritty"),
            SoftwareId::Fish => CommandRecipe::Shell("brew install fish"),
            SoftwareId::Rustup => CommandRecipe::Shell("curl --proto '=https' --tlsv1.2 -sSf https://sh.rustup.rs | sh -s -- -y"),
            SoftwareId::RustStable => CommandRecipe::Shell("rustup toolchain install stable && rustup default stable"),
            SoftwareId::RustNightly => CommandRecipe::Shell("rustup toolchain install nightly"),
            SoftwareId::CargoJust => CommandRecipe::Shell("cargo install just"),
            SoftwareId::CargoBinstall => CommandRecipe::Shell("cargo install cargo-binstall"),
            SoftwareId::CargoWatch => CommandRecipe::Shell("cargo install cargo-watch"),
            SoftwareId::SimpleHttpServer => CommandRecipe::Shell("cargo +nightly install simple-http-server"),
            SoftwareId::Nvm => CommandRecipe::Shell("curl -o- https://raw.githubusercontent.com/nvm-sh/nvm/v0.40.1/install.sh | bash"),
            SoftwareId::Bun => CommandRecipe::Shell("curl -fsSL https://bun.sh/install | bash"),
            SoftwareId::Go => CommandRecipe::Shell("brew install go"),
            SoftwareId::Pyenv => CommandRecipe::Shell("brew install pyenv"),
            SoftwareId::Poetry => CommandRecipe::Shell("curl -sSL https://install.python-poetry.org | python3 -"),
            SoftwareId::Uv => CommandRecipe::Shell("curl -LsSf https://astral.sh/uv/install.sh | sh"),
            SoftwareId::Flutter => CommandRecipe::Shell("brew install --cask flutter"),
            SoftwareId::AndroidStudio => CommandRecipe::Shell("brew install --cask android-studio"),
            SoftwareId::ReactNativeCli => CommandRecipe::Shell("npm install -g react-native-cli"),
            SoftwareId::DioxusCli => CommandRecipe::Shell("cargo install dioxus-cli"),
            SoftwareId::YewCli => CommandRecipe::Shell("rustup target add wasm32-unknown-unknown && cargo install trunk"),
            SoftwareId::LeptosCli => CommandRecipe::Shell("rustup target add wasm32-unknown-unknown && cargo install cargo-leptos"),
            SoftwareId::ElectronForge => CommandRecipe::Shell("npm install -g @electron-forge/cli"),
            SoftwareId::DockerDesktop => CommandRecipe::Shell("brew install --cask docker"),
            SoftwareId::Postman => CommandRecipe::Shell("brew install --cask postman"),
            SoftwareId::Yaak => CommandRecipe::Shell("brew install --cask yaak"),
            SoftwareId::Bruno => CommandRecipe::Shell("brew install --cask bruno"),
            SoftwareId::TablePlus => CommandRecipe::Shell("brew install --cask tableplus"),
            SoftwareId::DBeaver => CommandRecipe::Shell("brew install --cask dbeaver-community"),
            SoftwareId::MongoDbCompass => CommandRecipe::Shell("brew install --cask mongodb-compass"),
            SoftwareId::RedisInsight => CommandRecipe::Shell("brew install --cask redisinsight"),
            SoftwareId::Slack => CommandRecipe::Shell("brew install --cask slack"),
            SoftwareId::Discord => CommandRecipe::Shell("brew install --cask discord"),
            SoftwareId::Zoom => CommandRecipe::Shell("brew install --cask zoom"),
            SoftwareId::Figma => CommandRecipe::Shell("brew install --cask figma"),
            SoftwareId::Vlc => CommandRecipe::Shell("brew install --cask vlc"),
            SoftwareId::Kubectl => CommandRecipe::Shell("brew install kubectl"),
            SoftwareId::Terraform => CommandRecipe::Shell("brew install terraform"),
            SoftwareId::AwsCli => CommandRecipe::Shell("brew install awscli"),
            SoftwareId::AzureCli => CommandRecipe::Shell("brew install azure-cli"),
            SoftwareId::Jq => CommandRecipe::Shell("brew install jq"),
            SoftwareId::Ripgrep => CommandRecipe::Shell("brew install ripgrep"),
            SoftwareId::Fd => CommandRecipe::Shell("brew install fd"),
            SoftwareId::Bat => CommandRecipe::Shell("brew install bat"),
            SoftwareId::Fzf => CommandRecipe::Shell("brew install fzf"),
            SoftwareId::Btop => CommandRecipe::Shell("brew install btop"),
            SoftwareId::Neovim => CommandRecipe::Shell("brew install neovim"),
            SoftwareId::CodexCli => CommandRecipe::Shell("npm install -g codex-cli"),
            SoftwareId::KimiCli => CommandRecipe::Shell("npm install -g kimi-cli"),
            SoftwareId::GeminiCli => CommandRecipe::Shell("npm install -g gemini-cli"),
            SoftwareId::QwenCli => CommandRecipe::Shell("npm install -g qwen-cli"),
            SoftwareId::OpencodeCli => CommandRecipe::Shell("npm install -g opencode-cli"),
        }
    }

    pub fn update_recipe(&self) -> (r: CommandRecipe)
        ensures
            r == update_recipe_of(*self),
    {
        match self {
            SoftwareId::Homebrew => CommandRecipe::Shell("brew update && brew upgrade"),
            SoftwareId::XcodeCommandLineTools => CommandRecipe::Manual("Use Software Update or run `softwareupdate --all --install --force`."),
            SoftwareId::Brave => CommandRecipe::Shell("brew upgrade --cask brave-browser"),
            SoftwareId::Firefox => CommandRecipe::Shell("brew upgrade --cask firefox"),
            SoftwareId::Chrome => CommandRecipe::Shell("brew upgrade --cask google-chrome"),
            SoftwareId::JetBrainsToolbox => CommandRecipe::Shell("brew upgrade --cask jetbrains-toolbox"),
            SoftwareId::Cursor => CommandRecipe::Shell("brew upgrade --cask cursor"),
            SoftwareId::Windsurf => CommandRecipe::Shell("brew upgrade --cask windsurf"),
            SoftwareId::VisualStudioCode => CommandRecipe::Shell("brew upgrade --cask visual-studio-code"),
            SoftwareId::ZedStable => CommandRecipe::Shell("brew upgrade --cask zed"),
            SoftwareId::ZedPreview => CommandRecipe::Shell("brew upgrade --cask zed@preview"),
            SoftwareId::Raycast => CommandRecipe::Shell("brew upgrade --cask raycast"),
            SoftwareId::ITerm2 => CommandRecipe::Shell("brew upgrade --cask iterm2"),
            SoftwareId::Warp => CommandRecipe::Shell("brew upgrade --cask warp"),
            SoftwareId::Alacritty => CommandRecipe::Shell("brew upgrade --cask alacritty"),
            SoftwareId::Fish => CommandRecipe::Shell("brew upgrade fish"),
            SoftwareId::Rustup => CommandRecipe::Shell("rustup self update && rustup update"),
            SoftwareId::RustStable => CommandRecipe::Shell("rustup update stable"),
            SoftwareId::RustNightly => CommandRecipe::Shell("rustup update nightly"),
            SoftwareId::CargoJust => CommandRecipe::Shell("cargo install just --force"),
            SoftwareId::CargoBinstall => CommandRecipe::Shell("cargo install cargo-binstall --force"),
            SoftwareId::CargoWatch => CommandRecipe::Shell("cargo install cargo-watch --force"),
            SoftwareId::SimpleHttpServer => CommandRecipe::Shell("cargo +nightly install simple-http-server --force"),
            SoftwareId::Nvm => CommandRecipe::Manual("Pull the latest nvm via git or rerun the installer script."),
            SoftwareId::Bun => CommandRecipe::Shell("bun upgrade"),
            SoftwareId::Go => CommandRecipe::Shell("brew upgrade go"),
            SoftwareId::Pyenv => CommandRecipe::Shell("brew upgrade pyenv"),
            SoftwareId::Poetry => CommandRecipe::Shell("poetry self update"),
            SoftwareId::Uv => CommandRecipe::Shell("curl -LsSf https://astral.sh/uv/install.sh | sh"),
            SoftwareId::Flutter => CommandRecipe::Shell("flutter upgrade"),
            SoftwareId::AndroidStudio => CommandRecipe::Shell("brew upgrade --cask android-studio"),
            SoftwareId::ReactNativeCli => CommandRecipe::Shell("npm update -g react-native-cli"),
            SoftwareId::DioxusCli => CommandRecipe::Shell("cargo install dioxus-cli --force"),
            SoftwareId::YewCli => CommandRecipe::Shell("cargo install trunk --force"),
            SoftwareId::LeptosCli => CommandRecipe::Shell("cargo install cargo-leptos --force"),
            SoftwareId::ElectronForge => CommandRecipe::Shell("npm update -g @electron-forge/cli"),
            SoftwareId::DockerDesktop => CommandRecipe::Shell("brew upgrade --cask docker"),
            SoftwareId::Postman => CommandRecipe::Shell("brew upgrade --cask postman"),
            SoftwareId::Yaak => CommandRecipe::Shell("brew upgrade --cask yaak"),
            SoftwareId::Bruno => CommandRecipe::Shell("brew upgrade --cask bruno"),
            SoftwareId::TablePlus => CommandRecipe::Shell("brew upgrade --cask tableplus"),
            SoftwareId::DBeaver => CommandRecipe::Shell("brew upgrade --cask dbeaver-community"),
            SoftwareId::MongoDbCompass => CommandRecipe::Shell("brew upgrade --cask mongodb-compass"),
            SoftwareId::RedisInsight => CommandRecipe::Shell("brew upgrade --cask redisinsight"),
            SoftwareId::Slack => CommandRecipe::Shell("brew upgrade --cask slack"),
            SoftwareId::Discord => CommandRecipe::Shell("brew upgrade --cask discord"),
            SoftwareId::Zoom => CommandRecipe::Shell("brew upgrade --cask zoom"),
            SoftwareId::Figma => CommandRecipe::Shell("brew upgrade --cask figma"),
            SoftwareId::Vlc => CommandRecipe::Shell("brew upgrade --cask vlc"),
            SoftwareId::Kubectl => CommandRecipe::Shell("brew upgrade kubectl"),
            SoftwareId::Terraform => CommandRecipe::Shell("brew upgrade terraform"),
            SoftwareId::AwsCli => CommandRecipe::Shell("brew upgrade awscli"),
            SoftwareId::AzureCli => CommandRecipe::Shell("brew upgrade azure-cli"),
            SoftwareId::Jq => CommandRecipe::Shell("brew upgrade jq"),
            SoftwareId::Ripgrep => CommandRecipe::Shell("brew upgrade ripgrep"),
            SoftwareId::Fd => CommandRecipe::Shell("brew upgrade fd"),
            SoftwareId::Bat => CommandRecipe::Shell("brew upgrade bat"),
            SoftwareId::Fzf => CommandRecipe::Shell("brew upgrade fzf"),
            SoftwareId::Btop => CommandRecipe::Shell("brew upgrade btop"),
            SoftwareId::Neovim => CommandRecipe::Shell("brew upgrade neovim"),
            SoftwareId::CodexCli => CommandRecipe::Shell("npm update -g codex-cli"),
            SoftwareId::KimiCli => CommandRecipe::Shell("npm update -g kimi-cli"),
            SoftwareId::GeminiCli => CommandRecipe::Shell("npm update -g gemini-cli"),
            SoftwareId::QwenCli => CommandRecipe::Shell("npm update -g qwen-cli"),
            SoftwareId::OpencodeCli => CommandRecipe::Shell("npm update -g opencode-cli"),
        }
    }

    pub fn uninstall_recipe(&self) -> (r: CommandRecipe)
        ensures
            r == uninstall_recipe_of(*self),
    {
        match self {
            SoftwareId::Homebrew => CommandRecipe::Manual("Follow https://docs.brew.sh/FAQ#how-do-i-uninstall-homebrew"),
            SoftwareId::XcodeCommandLineTools => CommandRecipe::Shell("sudo rm -rf /Library/Developer/CommandLineTools"),
            SoftwareId::Brave => CommandRecipe::Shell("brew uninstall --cask brave-browser"),
            SoftwareId::Firefox => CommandRecipe::Shell("brew uninstall --cask firefox"),
            SoftwareId::Chrome => CommandRecipe::Shell("brew uninstall --cask google-chrome"),
            SoftwareId::JetBrainsToolbox => CommandRecipe::Shell("brew uninstall --cask jetbrains-toolbox"),
            SoftwareId::Cursor => CommandRecipe::Shell("brew uninstall --cask cursor"),
            SoftwareId::Windsurf => CommandRecipe::Shell("brew uninstall --cask windsurf"),
            SoftwareId::VisualStudioCode => CommandRecipe::Shell("brew uninstall --cask visual-studio-code"),
            SoftwareId::ZedStable => CommandRecipe::Shell("brew uninstall --cask zed"),
            SoftwareId::ZedPreview => CommandRecipe::Shell("brew uninstall --cask zed@preview"),
            SoftwareId::Raycast => CommandRecipe::Shell("brew uninstall --cask raycast"),
            SoftwareId::ITerm2 => CommandRecipe::Shell("brew uninstall --cask iterm2"),
            SoftwareId::Warp => CommandRecipe::Shell("brew uninstall --cask warp"),
            SoftwareId::Alacritty => CommandRecipe::Shell("brew uninstall --cask alacritty"),
            SoftwareId::Fish => CommandRecipe::Shell("brew uninstall fish"),
            SoftwareId::Rustup => CommandRecipe::Shell("rustup self uninstall -y"),
            SoftwareId::RustStable => CommandRecipe::Shell("rustup toolchain uninstall stable"),
            SoftwareId::RustNightly => CommandRecipe::Shell("rustup toolchain uninstall nightly"),
            SoftwareId::CargoJust => CommandRecipe::Shell("cargo uninstall just"),
            SoftwareId::CargoBinstall => CommandRecipe::Shell("cargo uninstall cargo-binstall"),
            SoftwareId::CargoWatch => CommandRecipe::Shell("cargo uninstall cargo-watch"),
            SoftwareId::SimpleHttpServer => CommandRecipe::Shell("cargo uninstall simple-http-server"),
            SoftwareId::Nvm => CommandRecipe::Manual("Remove ~/.nvm and related shell profile entries."),
            SoftwareId::Bun => CommandRecipe::Manual("Remove ~/.bun and PATH exports."),
            SoftwareId::Go => CommandRecipe::Shell("brew uninstall go"),
            SoftwareId::Pyenv => CommandRecipe::Shell("brew uninstall pyenv"),
            SoftwareId::Poetry => CommandRecipe::Manual("Run: curl -sSL https://install.python-poetry.org | python3 - --uninstall"),
            SoftwareId::Uv => CommandRecipe::Manual("Remove ~/.cargo/bin/uv and related files."),
            SoftwareId::Flutter => CommandRecipe::Shell("brew uninstall --cask flutter"),
            SoftwareId::AndroidStudio => CommandRecipe::Shell("brew uninstall --cask android-studio"),
            SoftwareId::ReactNativeCli => CommandRecipe::Shell("npm uninstall -g react-native-cli"),
            SoftwareId::DioxusCli => CommandRecipe::Shell("cargo uninstall dioxus-cli"),
            SoftwareId::YewCli => CommandRecipe::Shell("cargo uninstall trunk"),
            SoftwareId::LeptosCli => CommandRecipe::Shell("cargo uninstall cargo-leptos"),
            SoftwareId::ElectronForge => CommandRecipe::Shell("npm uninstall -g @electron-forge/cli"),
            SoftwareId::DockerDesktop => CommandRecipe::Shell("brew uninstall --cask docker"),
            SoftwareId::Postman => CommandRecipe::Shell("brew uninstall --cask postman"),
            SoftwareId::Yaak => CommandRecipe::Shell("brew uninstall --cask yaak"),
            SoftwareId::Bruno => CommandRecipe::Shell("brew uninstall --cask bruno"),
            SoftwareId::TablePlus => CommandRecipe::Shell("brew uninstall --cask tableplus"),
            SoftwareId::DBeaver => CommandRecipe::Shell("brew uninstall --cask dbeaver-community"),
            SoftwareId::MongoDbCompass => CommandRecipe::Shell("brew uninstall --cask mongodb-compass"),
            SoftwareId::RedisInsight => CommandRecipe::Shell("brew uninstall --cask redisinsight"),
            SoftwareId::Slack => CommandRecipe::Shell("brew uninstall --cask slack"),
            SoftwareId::Discord => CommandRecipe::Shell("brew uninstall --cask discord"),
            SoftwareId::Zoom => CommandRecipe::Shell("brew uninstall --cask zoom"),
            SoftwareId::Figma => CommandRecipe::Shell("brew uninstall --cask figma"),
            SoftwareId::Vlc => CommandRecipe::Shell("brew uninstall --cask vlc"),
            SoftwareId::Kubectl => CommandRecipe::Shell("brew uninstall kubectl"),
            SoftwareId::Terraform => CommandRecipe::Shell("brew uninstall terraform"),
            SoftwareId::AwsCli => CommandRecipe::Shell("brew uninstall awscli"),
            SoftwareId::AzureCli => CommandRecipe::Shell("brew uninstall azure-cli"),
            SoftwareId::Jq => CommandRecipe::Shell("brew uninstall jq"),
            SoftwareId::Ripgrep => CommandRecipe::Shell("brew uninstall ripgrep"),
            SoftwareId::Fd => CommandRecipe::Shell("brew uninstall fd"),
            SoftwareId::Bat => CommandRecipe::Shell("brew uninstall bat"),
            SoftwareId::Fzf => CommandRecipe::Shell("brew uninstall fzf"),
            SoftwareId::Btop => CommandRecipe::Shell("brew uninstall btop"),
            SoftwareId::Neovim => CommandRecipe::Shell("brew uninstall neovim"),
            SoftwareId::CodexCli => CommandRecipe::Shell("npm uninstall -g codex-cli"),
            SoftwareId::KimiCli => CommandRecipe::Shell("npm uninstall -g kimi-cli"),
            SoftwareId::GeminiCli => CommandRecipe::Shell("npm uninstall -g gemini-cli"),
            SoftwareId::QwenCli => CommandRecipe::Shell("npm uninstall -g qwen-cli"),
            SoftwareId::OpencodeCli => CommandRecipe::Shell("npm uninstall -g opencode-cli"),
        }
    }

    pub fn extra_install_sources(&self) -> (r: Vec<CommandRecipe>)
        ensures
            r@ == extra_install_of(*self),
    {
        match self {
            SoftwareId::Homebrew |
            SoftwareId::XcodeCommandLineTools |
            SoftwareId::Brave |
            SoftwareId::Firefox |
            SoftwareId::Chrome |
            SoftwareId::JetBrainsToolbox |
            SoftwareId::Windsurf |
            SoftwareId::ZedStable |
            SoftwareId::ZedPreview |
            SoftwareId::Raycast |
            SoftwareId::ITerm2 |
            SoftwareId::Warp |
            SoftwareId::Alacritty |
            SoftwareId::Fish |
            SoftwareId::Rustup |
            SoftwareId::RustStable |
            SoftwareId::RustNightly |
            SoftwareId::CargoJust |
            SoftwareId::CargoBinstall |
            SoftwareId::CargoWatch |
            SoftwareId::SimpleHttpServer |
            SoftwareId::Nvm |
            SoftwareId::Bun |
            SoftwareId::Go |
            SoftwareId::Pyenv |
            SoftwareId::Poetry |
            SoftwareId::Uv |
            SoftwareId::ReactNativeCli |
            SoftwareId::DioxusCli |
            SoftwareId::YewCli |
            SoftwareId::LeptosCli |
            SoftwareId::ElectronForge |
            SoftwareId::DockerDesktop |
            SoftwareId::Postman |
            SoftwareId::Yaak |
            SoftwareId::Bruno |
            SoftwareId::TablePlus |
            SoftwareId::DBeaver |
            SoftwareId::MongoDbCompass |
            SoftwareId::RedisInsight |
            SoftwareId::Slack |
            SoftwareId::Discord |
            SoftwareId::Zoom |
            SoftwareId::Figma |
            SoftwareId::Vlc |
            SoftwareId::Kubectl |
            SoftwareId::Terraform |
            SoftwareId::AwsCli |
            SoftwareId::AzureCli |
            SoftwareId::Jq |
            SoftwareId::Ripgrep |
            SoftwareId::Fd |
            SoftwareId::Bat |
            SoftwareId::Fzf |
            SoftwareId::Btop |
            SoftwareId::Neovim |
            SoftwareId::CodexCli |
            SoftwareId::KimiCli |
            SoftwareId::GeminiCli |
            SoftwareId::QwenCli |
            SoftwareId::OpencodeCli => vec![],
            SoftwareId::Cursor => vec![CommandRecipe::Manual("Download Cursor from cursor.sh and drag it into /Applications.")],
            SoftwareId::VisualStudioCode => vec![CommandRecipe::Manual("Download VS Code from code.visualstudio.com and drag it into /Applications.")],
            SoftwareId::Flutter => vec![CommandRecipe::Manual("Download Flutter SDK archive from flutter.dev/docs/get-started/install and add it manually.")],
            SoftwareId::AndroidStudio => vec![CommandRecipe::Manual("Download Android Studio dmg from developer.android.com and move it to /Applications.")],
        }
    }

    pub fn extra_update_sources(&self) -> (r: Vec<CommandRecipe>)
        ensures
            r@.len() == 0,
    {
        Vec::new()
    }

    pub fn extra_uninstall_sources(&self) -> (r: Vec<CommandRecipe>)
        ensures
            r@.len() == 0,
    {
        Vec::new()
    }
}

/// The menu layout: each category with its packages, in display order.
pub open spec fn categories_spec() -> Seq<(Seq<char>, Seq<SoftwareId>)> {
    seq![
        ("System Essentials"@, seq![SoftwareId::Homebrew, SoftwareId::XcodeCommandLineTools]),
        ("Browsers"@, seq![SoftwareId::Brave, SoftwareId::Firefox, SoftwareId::Chrome]),
        ("Editors & IDEs"@, seq![SoftwareId::JetBrainsToolbox, SoftwareId::Cursor, SoftwareId::Windsurf, SoftwareId::VisualStudioCode, SoftwareId::ZedStable, SoftwareId::ZedPreview]),
        ("Terminal & Shell"@, seq![SoftwareId::ITerm2, SoftwareId::Warp, SoftwareId::Alacritty, SoftwareId::Fish]),
        ("Desktop Utilities"@, seq![SoftwareId::Raycast, SoftwareId::DockerDesktop]),
        ("Communication"@, seq![SoftwareId::Slack, SoftwareId::Discord, SoftwareId::Zoom]),
        ("Design & Media"@, seq![SoftwareId::Figma, SoftwareId::Vlc]),
        ("API & Testing"@, seq![SoftwareId::Postman, SoftwareId::Yaak, SoftwareId::Bruno]),
        ("Database Tools"@, seq![SoftwareId::TablePlus, SoftwareId::DBeaver, SoftwareId::MongoDbCompass, SoftwareId::RedisInsight]),
        ("Rust Stack"@, seq![SoftwareId::Rustup, SoftwareId::RustStable, SoftwareId::RustNightly, SoftwareId::CargoJust, SoftwareId::CargoBinstall, SoftwareId::CargoWatch, SoftwareId::SimpleHttpServer, SoftwareId::DioxusCli, SoftwareId::YewCli, SoftwareId::LeptosCli]),
        ("Python Stack"@, seq![SoftwareId::Pyenv, SoftwareId::Poetry, SoftwareId::Uv]),
        ("JavaScript & Node"@, seq![SoftwareId::Nvm, SoftwareId::Bun, SoftwareId::ElectronForge]),
        ("DevOps & Cloud"@, seq![SoftwareId::Kubectl, SoftwareId::Terraform, SoftwareId::AwsCli, SoftwareId::AzureCli]),
        ("Mobile / Cross-Platform"@, seq![SoftwareId::Flutter, SoftwareId::AndroidStudio, SoftwareId::ReactNativeCli]),
        ("CLI Utilities"@, seq![SoftwareId::Jq, SoftwareId::Ripgrep, SoftwareId::Fd, SoftwareId::Bat, SoftwareId::Fzf, SoftwareId::Btop, SoftwareId::Neovim]),
        ("AI Assistant CLIs"@, seq![SoftwareId::CodexCli, SoftwareId::KimiCli, SoftwareId::GeminiCli, SoftwareId::QwenCli, SoftwareId::OpencodeCli]),
        ("Languages"@, seq![SoftwareId::Go]),
    ]
}

/// The menu layout: each category with its packages, in display order.
pub fn categories() -> (r: Vec<SoftwareCategory>)
    ensures
        r@.len() == categories_spec().len(),
        forall|i: int|
            0 <= i < r@.len() ==> (#[trigger] r@[i]).name@ == categories_spec()[i].0
                && r@[i].entries@ == categories_spec()[i].1,
{
    let r = vec![
        SoftwareCategory { name: "System Essentials", entries: vec![SoftwareId::Homebrew, SoftwareId::XcodeCommandLineTools] },
        SoftwareCategory { name: "Browsers", entries: vec![SoftwareId::Brave, SoftwareId::Firefox, SoftwareId::Chrome] },
        SoftwareCategory { name: "Editors & IDEs", entries: vec![SoftwareId::JetBrainsToolbox, SoftwareId::Cursor, SoftwareId::Windsurf, SoftwareId::VisualStudioCode, SoftwareId::ZedStable, SoftwareId::ZedPreview] },
        SoftwareCategory { name: "Terminal & Shell", entries: vec![SoftwareId::ITerm2, SoftwareId::Warp, SoftwareId::Alacritty, SoftwareId::Fish] },
        SoftwareCategory { name: "Desktop Utilities", entries: vec![SoftwareId::Raycast, SoftwareId::DockerDesktop] },
        SoftwareCategory { name: "Communication", entries: vec![SoftwareId::Slack, SoftwareId::Discord, SoftwareId::Zoom] },
        SoftwareCategory { name: "Design & Media", entries: vec![SoftwareId::Figma, SoftwareId::Vlc] },
        SoftwareCategory { name: "API & Testing", entries: vec![SoftwareId::Postman, SoftwareId::Yaak, SoftwareId::Bruno] },
        SoftwareCategory { name: "Database Tools", entries: vec![SoftwareId::TablePlus, SoftwareId::DBeaver, SoftwareId::MongoDbCompass, SoftwareId::RedisInsight] },
        SoftwareCategory { name: "Rust Stack", entries: vec![SoftwareId::Rustup, SoftwareId::RustStable, SoftwareId::RustNightly, SoftwareId::CargoJust, SoftwareId::CargoBinstall, SoftwareId::CargoWatch, SoftwareId::SimpleHttpServer, SoftwareId::DioxusCli, SoftwareId::YewCli, SoftwareId::LeptosCli] },
        SoftwareCategory { name: "Python Stack", entries: vec![SoftwareId::Pyenv, SoftwareId::Poetry, SoftwareId::Uv] },
        SoftwareCategory { name: "JavaScript & Node", entries: vec![SoftwareId::Nvm, SoftwareId::Bun, SoftwareId::ElectronForge] },
        SoftwareCategory { name: "DevOps & Cloud", entries: vec![SoftwareId::Kubectl, SoftwareId::Terraform, SoftwareId::AwsCli, SoftwareId::AzureCli] },
        SoftwareCategory { name: "Mobile / Cross-Platform", entries: vec![SoftwareId::Flutter, SoftwareId::AndroidStudio, SoftwareId::ReactNativeCli] },
        SoftwareCategory { name: "CLI Utilities", entries: vec![SoftwareId::Jq, SoftwareId::Ripgrep, SoftwareId::Fd, SoftwareId::Bat, SoftwareId::Fzf, SoftwareId::Btop, SoftwareId::Neovim] },
        SoftwareCategory { name: "AI Assistant CLIs", entries: vec![SoftwareId::CodexCli, SoftwareId::KimiCli, SoftwareId::GeminiCli, SoftwareId::QwenCli, SoftwareId::OpencodeCli] },
        SoftwareCategory { name: "Languages", entries: vec![SoftwareId::Go] },
    ];
    r
}

} // verus!
