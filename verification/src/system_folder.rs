//! The folders that Windows Installer resolves on the target system.

use vstd::prelude::*;
use crate::identifier::{Identifier, valid_identifier};

verus! {

/// A folder whose location the installer determines on the target system.
/// `TARGETDIR` is the root of the installation.
#[allow(non_camel_case_types)]
#[derive(Clone, Copy, Debug, PartialEq, Eq, Structural)]
pub enum SystemFolder {
    TARGETDIR,
    AdminToolsFolder,
    AppDataFolder,
    CommonAppDataFolder,
    CommonFiles64Folder,
    CommonFilesFolder,
    DesktopFolder,
    FavoritesFolder,
    FontsFolder,
    LocalAppDataFolder,
    MyPicturesFolder,
    NetHoodFolder,
    PersonalFolder,
    PrintHoodFolder,
    ProgramFiles64Folder,
    ProgramFilesFolder,
    ProgramMenuFolder,
    RecentFolder,
    SendToFolder,
    StartMenuFolder,
    StartupFolder,
    System16Folder,
    System64Folder,
    SystemFolder,
    TempFolder,
    TemplateFolder,
    WindowsFolder,
    WindowsVolume,
}

/// The name of a system folder.
pub open spec fn folder_name(f: SystemFolder) -> Seq<char> {
    match f {
        SystemFolder::TARGETDIR => "TARGETDIR"@,
        SystemFolder::AdminToolsFolder => "AdminToolsFolder"@,
        SystemFolder::AppDataFolder => "AppDataFolder"@,
        SystemFolder::CommonAppDataFolder => "CommonAppDataFolder"@,
        SystemFolder::CommonFiles64Folder => "CommonFiles64Folder"@,
        SystemFolder::CommonFilesFolder => "CommonFilesFolder"@,
        SystemFolder::DesktopFolder => "DesktopFolder"@,
        SystemFolder::FavoritesFolder => "FavoritesFolder"@,
        SystemFolder::FontsFolder => "FontsFolder"@,
        SystemFolder::LocalAppDataFolder => "LocalAppDataFolder"@,
        SystemFolder::MyPicturesFolder => "MyPicturesFolder"@,
        SystemFolder::NetHoodFolder => "NetHoodFolder"@,
        SystemFolder::PersonalFolder => "PersonalFolder"@,
        SystemFolder::PrintHoodFolder => "PrintHoodFolder"@,
        SystemFolder::ProgramFiles64Folder => "ProgramFiles64Folder"@,
        SystemFolder::ProgramFilesFolder => "ProgramFilesFolder"@,
        SystemFolder::ProgramMenuFolder => "ProgramMenuFolder"@,
        SystemFolder::RecentFolder => "RecentFolder"@,
        SystemFolder::SendToFolder => "SendToFolder"@,
        SystemFolder::StartMenuFolder => "StartMenuFolder"@,
        SystemFolder::StartupFolder => "StartupFolder"@,
        SystemFolder::System16Folder => "System16Folder"@,
        SystemFolder::System64Folder => "System64Folder"@,
        SystemFolder::SystemFolder => "SystemFolder"@,
        SystemFolder::TempFolder => "TempFolder"@,
        SystemFolder::TemplateFolder => "TemplateFolder"@,
        SystemFolder::WindowsFolder => "WindowsFolder"@,
        SystemFolder::WindowsVolume => "WindowsVolume"@,
    }
}

/// The system folder with the given name, if there is one.
pub open spec fn parse_folder(s: Seq<char>) -> Option<SystemFolder> {
    if s == "TARGETDIR"@ {
        Some(SystemFolder::TARGETDIR)
    } else if s == "AdminToolsFolder"@ {
        Some(SystemFolder::AdminToolsFolder)
    } else if s == "AppDataFolder"@ {
        Some(SystemFolder::AppDataFolder)
    } else if s == "CommonAppDataFolder"@ {
        Some(SystemFolder::CommonAppDataFolder)
    } else if s == "CommonFiles64Folder"@ {
        Some(SystemFolder::CommonFiles64Folder)
    } else if s == "CommonFilesFolder"@ {
        Some(SystemFolder::CommonFilesFolder)
    } else if s == "DesktopFolder"@ {
        Some(SystemFolder::DesktopFolder)
    } else if s == "FavoritesFolder"@ {
        Some(SystemFolder::FavoritesFolder)
    } else if s == "FontsFolder"@ {
        Some(SystemFolder::FontsFolder)
    } else if s == "LocalAppDataFolder"@ {
        Some(SystemFolder::LocalAppDataFolder)
    } else if s == "MyPicturesFolder"@ {
        Some(SystemFolder::MyPicturesFolder)
    } else if s == "NetHoodFolder"@ {
        Some(SystemFolder::NetHoodFolder)
    } else if s == "PersonalFolder"@ {
        Some(SystemFolder::PersonalFolder)
    } else if s == "PrintHoodFolder"@ {
        Some(SystemFolder::PrintHoodFolder)
    } else if s == "ProgramFiles64Folder"@ {
        Some(SystemFolder::ProgramFiles64Folder)
    } else if s == "ProgramFilesFolder"@ {
        Some(SystemFolder::ProgramFilesFolder)
    } else if s == "ProgramMenuFolder"@ {
        Some(SystemFolder::ProgramMenuFolder)
    } else if s == "RecentFolder"@ {
        Some(SystemFolder::RecentFolder)
    } else if s == "SendToFolder"@ {
        Some(SystemFolder::SendToFolder)
    } else if s == "StartMenuFolder"@ {
        Some(SystemFolder::StartMenuFolder)
    } else if s == "StartupFolder"@ {
        Some(SystemFolder::StartupFolder)
    } else if s == "System16Folder"@ {
        Some(SystemFolder::System16Folder)
    } else if s == "System64Folder"@ {
        Some(SystemFolder::System64Folder)
    } else if s == "SystemFolder"@ {
        Some(SystemFolder::SystemFolder)
    } else if s == "TempFolder"@ {
        Some(SystemFolder::TempFolder)
    } else if s == "TemplateFolder"@ {
        Some(SystemFolder::TemplateFolder)
    } else if s == "WindowsFolder"@ {
        Some(SystemFolder::WindowsFolder)
    } else if s == "WindowsVolume"@ {
        Some(SystemFolder::WindowsVolume)
    } else {
        None
    }
}

impl SystemFolder {
    /// The name of the folder.
    pub fn name(&self) -> (r: &'static str)
        ensures
            r@ == folder_name(*self),
    {
        match self {
            SystemFolder::TARGETDIR => "TARGETDIR",
            SystemFolder::AdminToolsFolder => "AdminToolsFolder",
            SystemFolder::AppDataFolder => "AppDataFolder",
            SystemFolder::CommonAppDataFolder => "CommonAppDataFolder",
            SystemFolder::CommonFiles64Folder => "CommonFiles64Folder",
            SystemFolder::CommonFilesFolder => "CommonFilesFolder",
            SystemFolder::DesktopFolder => "DesktopFolder",
            SystemFolder::FavoritesFolder => "FavoritesFolder",
            SystemFolder::FontsFolder => "FontsFolder",
            SystemFolder::LocalAppDataFolder => "LocalAppDataFolder",
            SystemFolder::MyPicturesFolder => "MyPicturesFolder",
            SystemFolder::NetHoodFolder => "NetHoodFolder",
            SystemFolder::PersonalFolder => "PersonalFolder",
            SystemFolder::PrintHoodFolder => "PrintHoodFolder",
            SystemFolder::ProgramFiles64Folder => "ProgramFiles64Folder",
            SystemFolder::ProgramFilesFolder => "ProgramFilesFolder",
            SystemFolder::ProgramMenuFolder => "ProgramMenuFolder",
            SystemFolder::RecentFolder => "RecentFolder",
            SystemFolder::SendToFolder => "SendToFolder",
            SystemFolder::StartMenuFolder => "StartMenuFolder",
            SystemFolder::StartupFolder => "StartupFolder",
            SystemFolder::System16Folder => "System16Folder",
            SystemFolder::System64Folder => "System64Folder",
            SystemFolder::SystemFolder => "SystemFolder",
            SystemFolder::TempFolder => "TempFolder",
            SystemFolder::TemplateFolder => "TemplateFolder",
            SystemFolder::WindowsFolder => "WindowsFolder",
            SystemFolder::WindowsVolume => "WindowsVolume",
        }
    }

    /// The name of the folder as an owned string.
    pub fn to_string(&self) -> (r: String)
        ensures
            r@ == folder_name(*self),
    {
        crate::text::owned(self.name())
    }

    /// The folder with the given name; `None` when no folder has that name.
    pub fn from_str(s: &str) -> (r: Option<SystemFolder>)
        ensures
            r == parse_folder(s@),
    {
        if crate::text::str_eq(s, "TARGETDIR") {
            return Some(SystemFolder::TARGETDIR);
        }
        if crate::text::str_eq(s, "AdminToolsFolder") {
            return Some(SystemFolder::AdminToolsFolder);
        }
        if crate::text::str_eq(s, "AppDataFolder") {
            return Some(SystemFolder::AppDataFolder);
        }
        if crate::text::str_eq(s, "CommonAppDataFolder") {
            return Some(SystemFolder::CommonAppDataFolder);
        }
        if crate::text::str_eq(s, "CommonFiles64Folder") {
            return Some(SystemFolder::CommonFiles64Folder);
        }
        if crate::text::str_eq(s, "CommonFilesFolder") {
            return Some(SystemFolder::CommonFilesFolder);
        }
        if crate::text::str_eq(s, "DesktopFolder") {
            return Some(SystemFolder::DesktopFolder);
        }
        if crate::text::str_eq(s, "FavoritesFolder") {
            return Some(SystemFolder::FavoritesFolder);
        }
        if crate::text::str_eq(s, "FontsFolder") {
            return Some(SystemFolder::FontsFolder);
        }
        if crate::text::str_eq(s, "LocalAppDataFolder") {
            return Some(SystemFolder::LocalAppDataFolder);
        }
        if crate::text::str_eq(s, "MyPicturesFolder") {
            return Some(SystemFolder::MyPicturesFolder);
        }
        if crate::text::str_eq(s, "NetHoodFolder") {
            return Some(SystemFolder::NetHoodFolder);
        }
        if crate::text::str_eq(s, "PersonalFolder") {
            return Some(SystemFolder::PersonalFolder);
        }
        if crate::text::str_eq(s, "PrintHoodFolder") {
            return Some(SystemFolder::PrintHoodFolder);
        }
        if crate::text::str_eq(s, "ProgramFiles64Folder") {
            return Some(SystemFolder::ProgramFiles64Folder);
        }
        if crate::text::str_eq(s, "ProgramFilesFolder") {
            return Some(SystemFolder::ProgramFilesFolder);
        }
        if crate::text::str_eq(s, "ProgramMenuFolder") {
            return Some(SystemFolder::ProgramMenuFolder);
        }
        if crate::text::str_eq(s, "RecentFolder") {
            return Some(SystemFolder::RecentFolder);
        }
        if crate::text::str_eq(s, "SendToFolder") {
            return Some(SystemFolder::SendToFolder);
        }
        if crate::text::str_eq(s, "StartMenuFolder") {
            return Some(SystemFolder::StartMenuFolder);
        }
        if crate::text::str_eq(s, "StartupFolder") {
            return Some(SystemFolder::StartupFolder);
        }
        if crate::text::str_eq(s, "System16Folder") {
            return Some(SystemFolder::System16Folder);
        }
        if crate::text::str_eq(s, "System64Folder") {
            return Some(SystemFolder::System64Folder);
        }
        if crate::text::str_eq(s, "SystemFolder") {
            return Some(SystemFolder::SystemFolder);
        }
        if crate::text::str_eq(s, "TempFolder") {
            return Some(SystemFolder::TempFolder);
        }
        if crate::text::str_eq(s, "TemplateFolder") {
            return Some(SystemFolder::TemplateFolder);
        }
        if crate::text::str_eq(s, "WindowsFolder") {
            return Some(SystemFolder::WindowsFolder);
        }
        if crate::text::str_eq(s, "WindowsVolume") {
            return Some(SystemFolder::WindowsVolume);
        }
        None
    }

    /// The folder's name as a Directory table key.
    pub fn to_identifier(&self) -> (r: Identifier)
        ensures
            r@ == folder_name(*self),
    {
        let name = self.name();
        proof {
            lemma_folder_name_valid(*self);
        }
        Identifier::from_valid(crate::text::owned(name))
    }
}

/// Reading back the name of a system folder gives the folder.
pub proof fn lemma_folder_name_roundtrip(f: SystemFolder)
    ensures
        parse_folder(folder_name(f)) == Some(f),
{
    match f {
        SystemFolder::TARGETDIR => {
            reveal_strlit("TARGETDIR");
        },
        SystemFolder::AdminToolsFolder => {
            reveal_strlit("AdminToolsFolder");
            reveal_strlit("TARGETDIR");
            assert("AdminToolsFolder"@.len() != "TARGETDIR"@.len());
        },
        SystemFolder::AppDataFolder => {
            reveal_strlit("AppDataFolder");
            reveal_strlit("TARGETDIR");
            assert("AppDataFolder"@.len() != "TARGETDIR"@.len());
            reveal_strlit("AdminToolsFolder");
            assert("AppDataFolder"@.len() != "AdminToolsFolder"@.len());
        },
        SystemFolder::CommonAppDataFolder => {
            reveal_strlit("CommonAppDataFolder");
            reveal_strlit("TARGETDIR");
            assert("CommonAppDataFolder"@.len() != "TARGETDIR"@.len());
            reveal_strlit("AdminToolsFolder");
            assert("CommonAppDataFolder"@.len() != "AdminToolsFolder"@.len());
            reveal_strlit("AppDataFolder");
            assert("CommonAppDataFolder"@.len() != "AppDataFolder"@.len());
        },
        SystemFolder::CommonFiles64Folder => {
            reveal_strlit("CommonFiles64Folder");
            reveal_strlit("TARGETDIR");
            assert("CommonFiles64Folder"@.len() != "TARGETDIR"@.len());
            reveal_strlit("AdminToolsFolder");
            assert("CommonFiles64Folder"@.len() != "AdminToolsFolder"@.len());
            reveal_strlit("AppDataFolder");
            assert("CommonFiles64Folder"@.len() != "AppDataFolder"@.len());
            reveal_strlit("CommonAppDataFolder");
            assert("CommonFiles64Folder"@[6] != "CommonAppDataFolder"@[6]);
        },
        SystemFolder::CommonFilesFolder => {
            reveal_strlit("CommonFilesFolder");
            reveal_strlit("TARGETDIR");
            assert("CommonFilesFolder"@.len() != "TARGETDIR"@.len());
            reveal_strlit("AdminToolsFolder");
            assert("CommonFilesFolder"@.len() != "AdminToolsFolder"@.len());
            reveal_strlit("AppDataFolder");
            assert("CommonFilesFolder"@.len() != "AppDataFolder"@.len());
            reveal_strlit("CommonAppDataFolder");
            assert("CommonFilesFolder"@.len() != "CommonAppDataFolder"@.len());
            reveal_strlit("CommonFiles64Folder");
            assert("CommonFilesFolder"@.len() != "CommonFiles64Folder"@.len());
        },
        SystemFolder::DesktopFolder => {
            reveal_strlit("DesktopFolder");
            reveal_strlit("TARGETDIR");
            assert("DesktopFolder"@.len() != "TARGETDIR"@.len());
            reveal_strlit("AdminToolsFolder");
            assert("DesktopFolder"@.len() != "AdminToolsFolder"@.len());
            reveal_strlit("AppDataFolder");
            assert("DesktopFolder"@[0] != "AppDataFolder"@[0]);
            reveal_strlit("CommonAppDataFolder");
            assert("DesktopFolder"@.len() != "CommonAppDataFolder"@.len());
            reveal_strlit("CommonFiles64Folder");
            assert("DesktopFolder"@.len() != "CommonFiles64Folder"@.len());
            reveal_strlit("CommonFilesFolder");
            assert("DesktopFolder"@.len() != "CommonFilesFolder"@.len());
        },
        SystemFolder::FavoritesFolder => {
            reveal_strlit("FavoritesFolder");
            reveal_strlit("TARGETDIR");
            assert("FavoritesFolder"@.len() != "TARGETDIR"@.len());
            reveal_strlit("AdminToolsFolder");
            assert("FavoritesFolder"@.len() != "AdminToolsFolder"@.len());
            reveal_strlit("AppDataFolder");
            assert("FavoritesFolder"@.len() != "AppDataFolder"@.len());
            reveal_strlit("CommonAppDataFolder");
            assert("FavoritesFolder"@.len() != "CommonAppDataFolder"@.len());
            reveal_strlit("CommonFiles64Folder");
            assert("FavoritesFolder"@.len() != "CommonFiles64Folder"@.len());
            reveal_strlit("CommonFilesFolder");
            assert("FavoritesFolder"@.len() != "CommonFilesFolder"@.len());
            reveal_strlit("DesktopFolder");
            assert("FavoritesFolder"@.len() != "DesktopFolder"@.len());
        },
        SystemFolder::FontsFolder => {
            reveal_strlit("FontsFolder");
            reveal_strlit("TARGETDIR");
            assert("FontsFolder"@.len() != "TARGETDIR"@.len());
            reveal_strlit("AdminToolsFolder");
            assert("FontsFolder"@.len() != "AdminToolsFolder"@.len());
            reveal_strlit("AppDataFolder");
            assert("FontsFolder"@.len() != "AppDataFolder"@.len());
            reveal_strlit("CommonAppDataFolder");
            assert("FontsFolder"@.len() != "CommonAppDataFolder"@.len());
            reveal_strlit("CommonFiles64Folder");
            assert("FontsFolder"@.len() != "CommonFiles64Folder"@.len());
            reveal_strlit("CommonFilesFolder");
            assert("FontsFolder"@.len() != "CommonFilesFolder"@.len());
            reveal_strlit("DesktopFolder");
            assert("FontsFolder"@.len() != "DesktopFolder"@.len());
            reveal_strlit("FavoritesFolder");
            assert("FontsFolder"@.len() != "FavoritesFolder"@.len());
        },
        SystemFolder::LocalAppDataFolder => {
            reveal_strlit("LocalAppDataFolder");
            reveal_strlit("TARGETDIR");
            assert("LocalAppDataFolder"@.len() != "TARGETDIR"@.len());
            reveal_strlit("AdminToolsFolder");
            assert("LocalAppDataFolder"@.len() != "AdminToolsFolder"@.len());
            reveal_strlit("AppDataFolder");
            assert("LocalAppDataFolder"@.len() != "AppDataFolder"@.len());
            reveal_strlit("CommonAppDataFolder");
            assert("LocalAppDataFolder"@.len() != "CommonAppDataFolder"@.len());
            reveal_strlit("CommonFiles64Folder");
            assert("LocalAppDataFolder"@.len() != "CommonFiles64Folder"@.len());
            reveal_strlit("CommonFilesFolder");
            assert("LocalAppDataFolder"@.len() != "CommonFilesFolder"@.len());
            reveal_strlit("DesktopFolder");
            assert("LocalAppDataFolder"@.len() != "DesktopFolder"@.len());
            reveal_strlit("FavoritesFolder");
            assert("LocalAppDataFolder"@.len() != "FavoritesFolder"@.len());
            reveal_strlit("FontsFolder");
            assert("LocalAppDataFolder"@.len() != "FontsFolder"@.len());
        },
        SystemFolder::MyPicturesFolder => {
            reveal_strlit("MyPicturesFolder");
            reveal_strlit("TARGETDIR");
            assert("MyPicturesFolder"@.len() != "TARGETDIR"@.len());
            reveal_strlit("AdminToolsFolder");
            assert("MyPicturesFolder"@[0] != "AdminToolsFolder"@[0]);
            reveal_strlit("AppDataFolder");
            assert("MyPicturesFolder"@.len() != "AppDataFolder"@.len());
            reveal_strlit("CommonAppDataFolder");
            assert("MyPicturesFolder"@.len() != "CommonAppDataFolder"@.len());
            reveal_strlit("CommonFiles64Folder");
            assert("MyPicturesFolder"@.len() != "CommonFiles64Folder"@.len());
            reveal_strlit("CommonFilesFolder");
            assert("MyPicturesFolder"@.len() != "CommonFilesFolder"@.len());
            reveal_strlit("DesktopFolder");
            assert("MyPicturesFolder"@.len() != "DesktopFolder"@.len());
            reveal_strlit("FavoritesFolder");
            assert("MyPicturesFolder"@.len() != "FavoritesFolder"@.len());
            reveal_strlit("FontsFolder");
            assert("MyPicturesFolder"@.len() != "FontsFolder"@.len());
            reveal_strlit("LocalAppDataFolder");
            assert("MyPicturesFolder"@.len() != "LocalAppDataFolder"@.len());
        },
        SystemFolder::NetHoodFolder => {
            reveal_strlit("NetHoodFolder");
            reveal_strlit("TARGETDIR");
            assert("NetHoodFolder"@.len() != "TARGETDIR"@.len());
            reveal_strlit("AdminToolsFolder");
            assert("NetHoodFolder"@.len() != "AdminToolsFolder"@.len());
            reveal_strlit("AppDataFolder");
            assert("NetHoodFolder"@[0] != "AppDataFolder"@[0]);
            reveal_strlit("CommonAppDataFolder");
            assert("NetHoodFolder"@.len() != "CommonAppDataFolder"@.len());
            reveal_strlit("CommonFiles64Folder");
            assert("NetHoodFolder"@.len() != "CommonFiles64Folder"@.len());
            reveal_strlit("CommonFilesFolder");
            assert("NetHoodFolder"@.len() != "CommonFilesFolder"@.len());
            reveal_strlit("DesktopFolder");
            assert("NetHoodFolder"@[0] != "DesktopFolder"@[0]);
            reveal_strlit("FavoritesFolder");
            assert("NetHoodFolder"@.len() != "FavoritesFolder"@.len());
            reveal_strlit("FontsFolder");
            assert("NetHoodFolder"@.len() != "FontsFolder"@.len());
            reveal_strlit("LocalAppDataFolder");
            assert("NetHoodFolder"@.len() != "LocalAppDataFolder"@.len());
            reveal_strlit("MyPicturesFolder");
            assert("NetHoodFolder"@.len() != "MyPicturesFolder"@.len());
        },
        SystemFolder::PersonalFolder => {
            reveal_strlit("PersonalFolder");
            reveal_strlit("TARGETDIR");
            assert("PersonalFolder"@.len() != "TARGETDIR"@.len());
            reveal_strlit("AdminToolsFolder");
            assert("PersonalFolder"@.len() != "AdminToolsFolder"@.len());
            reveal_strlit("AppDataFolder");
            assert("PersonalFolder"@.len() != "AppDataFolder"@.len());
            reveal_strlit("CommonAppDataFolder");
            assert("PersonalFolder"@.len() != "CommonAppDataFolder"@.len());
            reveal_strlit("CommonFiles64Folder");
            assert("PersonalFolder"@.len() != "CommonFiles64Folder"@.len());
            reveal_strlit("CommonFilesFolder");
            assert("PersonalFolder"@.len() != "CommonFilesFolder"@.len());
            reveal_strlit("DesktopFolder");
            assert("PersonalFolder"@.len() != "DesktopFolder"@.len());
            reveal_strlit("FavoritesFolder");
            assert("PersonalFolder"@.len() != "FavoritesFolder"@.len());
            reveal_strlit("FontsFolder");
            assert("PersonalFolder"@.len() != "FontsFolder"@.len());
            reveal_strlit("LocalAppDataFolder");
            assert("PersonalFolder"@.len() != "LocalAppDataFolder"@.len());
            reveal_strlit("MyPicturesFolder");
            assert("PersonalFolder"@.len() != "MyPicturesFolder"@.len());
            reveal_strlit("NetHoodFolder");
            assert("PersonalFolder"@.len() != "NetHoodFolder"@.len());
        },
        SystemFolder::PrintHoodFolder => {
            reveal_strlit("PrintHoodFolder");
            reveal_strlit("TARGETDIR");
            assert("PrintHoodFolder"@.len() != "TARGETDIR"@.len());
            reveal_strlit("AdminToolsFolder");
            assert("PrintHoodFolder"@.len() != "AdminToolsFolder"@.len());
            reveal_strlit("AppDataFolder");
            assert("PrintHoodFolder"@.len() != "AppDataFolder"@.len());
            reveal_strlit("CommonAppDataFolder");
            assert("PrintHoodFolder"@.len() != "CommonAppDataFolder"@.len());
            reveal_strlit("CommonFiles64Folder");
            assert("PrintHoodFolder"@.len() != "CommonFiles64Folder"@.len());
            reveal_strlit("CommonFilesFolder");
            assert("PrintHoodFolder"@.len() != "CommonFilesFolder"@.len());
            reveal_strlit("DesktopFolder");
            assert("PrintHoodFolder"@.len() != "DesktopFolder"@.len());
            reveal_strlit("FavoritesFolder");
            assert("PrintHoodFolder"@[0] != "FavoritesFolder"@[0]);
            reveal_strlit("FontsFolder");
            assert("PrintHoodFolder"@.len() != "FontsFolder"@.len());
            reveal_strlit("LocalAppDataFolder");
            assert("PrintHoodFolder"@.len() != "LocalAppDataFolder"@.len());
            reveal_strlit("MyPicturesFolder");
            assert("PrintHoodFolder"@.len() != "MyPicturesFolder"@.len());
            reveal_strlit("NetHoodFolder");
            assert("PrintHoodFolder"@.len() != "NetHoodFolder"@.len());
            reveal_strlit("PersonalFolder");
            assert("PrintHoodFolder"@.len() != "PersonalFolder"@.len());
        },
        SystemFolder::ProgramFiles64Folder => {
            reveal_strlit("ProgramFiles64Folder");
            reveal_strlit("TARGETDIR");
            assert("ProgramFiles64Folder"@.len() != "TARGETDIR"@.len());
            reveal_strlit("AdminToolsFolder");
            assert("ProgramFiles64Folder"@.len() != "AdminToolsFolder"@.len());
            reveal_strlit("AppDataFolder");
            assert("ProgramFiles64Folder"@.len() != "AppDataFolder"@.len());
            reveal_strlit("CommonAppDataFolder");
            assert("ProgramFiles64Folder"@.len() != "CommonAppDataFolder"@.len());
            reveal_strlit("CommonFiles64Folder");
            assert("ProgramFiles64Folder"@.len() != "CommonFiles64Folder"@.len());
            reveal_strlit("CommonFilesFolder");
            assert("ProgramFiles64Folder"@.len() != "CommonFilesFolder"@.len());
            reveal_strlit("DesktopFolder");
            assert("ProgramFiles64Folder"@.len() != "DesktopFolder"@.len());
            reveal_strlit("FavoritesFolder");
            assert("ProgramFiles64Folder"@.len() != "FavoritesFolder"@.len());
            reveal_strlit("FontsFolder");
            assert("ProgramFiles64Folder"@.len() != "FontsFolder"@.len());
            reveal_strlit("LocalAppDataFolder");
            assert("ProgramFiles64Folder"@.len() != "LocalAppDataFolder"@.len());
            reveal_strlit("MyPicturesFolder");
            assert("ProgramFiles64Folder"@.len() != "MyPicturesFolder"@.len());
            reveal_strlit("NetHoodFolder");
            assert("ProgramFiles64Folder"@.len() != "NetHoodFolder"@.len());
            reveal_strlit("PersonalFolder");
            assert("ProgramFiles64Folder"@.len() != "PersonalFolder"@.len());
            reveal_strlit("PrintHoodFolder");
            assert("ProgramFiles64Folder"@.len() != "PrintHoodFolder"@.len());
        },
        SystemFolder::ProgramFilesFolder => {
            reveal_strlit("ProgramFilesFolder");
            reveal_strlit("TARGETDIR");
            assert("ProgramFilesFolder"@.len() != "TARGETDIR"@.len());
            reveal_strlit("AdminToolsFolder");
            assert("ProgramFilesFolder"@.len() != "AdminToolsFolder"@.len());
            reveal_strlit("AppDataFolder");
            assert("ProgramFilesFolder"@.len() != "AppDataFolder"@.len());
            reveal_strlit("CommonAppDataFolder");
            assert("ProgramFilesFolder"@.len() != "CommonAppDataFolder"@.len());
            reveal_strlit("CommonFiles64Folder");
            assert("ProgramFilesFolder"@.len() != "CommonFiles64Folder"@.len());
            reveal_strlit("CommonFilesFolder");
            assert("ProgramFilesFolder"@.len() != "CommonFilesFolder"@.len());
            reveal_strlit("DesktopFolder");
            assert("ProgramFilesFolder"@.len() != "DesktopFolder"@.len());
            reveal_strlit("FavoritesFolder");
            assert("ProgramFilesFolder"@.len() != "FavoritesFolder"@.len());
            reveal_strlit("FontsFolder");
            assert("ProgramFilesFolder"@.len() != "FontsFolder"@.len());
            reveal_strlit("LocalAppDataFolder");
            assert("ProgramFilesFolder"@[0] != "LocalAppDataFolder"@[0]);
            reveal_strlit("MyPicturesFolder");
            assert("ProgramFilesFolder"@.len() != "MyPicturesFolder"@.len());
            reveal_strlit("NetHoodFolder");
            assert("ProgramFilesFolder"@.len() != "NetHoodFolder"@.len());
            reveal_strlit("PersonalFolder");
            assert("ProgramFilesFolder"@.len() != "PersonalFolder"@.len());
            reveal_strlit("PrintHoodFolder");
            assert("ProgramFilesFolder"@.len() != "PrintHoodFolder"@.len());
            reveal_strlit("ProgramFiles64Folder");
            assert("ProgramFilesFolder"@.len() != "ProgramFiles64Folder"@.len());
        },
        SystemFolder::ProgramMenuFolder => {
            reveal_strlit("ProgramMenuFolder");
            reveal_strlit("TARGETDIR");
            assert("ProgramMenuFolder"@.len() != "TARGETDIR"@.len());
            reveal_strlit("AdminToolsFolder");
            assert("ProgramMenuFolder"@.len() != "AdminToolsFolder"@.len());
            reveal_strlit("AppDataFolder");
            assert("ProgramMenuFolder"@.len() != "AppDataFolder"@.len());
            reveal_strlit("CommonAppDataFolder");
            assert("ProgramMenuFolder"@.len() != "CommonAppDataFolder"@.len());
            reveal_strlit("CommonFiles64Folder");
            assert("ProgramMenuFolder"@.len() != "CommonFiles64Folder"@.len());
            reveal_strlit("CommonFilesFolder");
            assert("ProgramMenuFolder"@[0] != "CommonFilesFolder"@[0]);
            reveal_strlit("DesktopFolder");
            assert("ProgramMenuFolder"@.len() != "DesktopFolder"@.len());
            reveal_strlit("FavoritesFolder");
            assert("ProgramMenuFolder"@.len() != "FavoritesFolder"@.len());
            reveal_strlit("FontsFolder");
            assert("ProgramMenuFolder"@.len() != "FontsFolder"@.len());
            reveal_strlit("LocalAppDataFolder");
            assert("ProgramMenuFolder"@.len() != "LocalAppDataFolder"@.len());
            reveal_strlit("MyPicturesFolder");
            assert("ProgramMenuFolder"@.len() != "MyPicturesFolder"@.len());
            reveal_strlit("NetHoodFolder");
            assert("ProgramMenuFolder"@.len() != "NetHoodFolder"@.len());
            reveal_strlit("PersonalFolder");
            assert("ProgramMenuFolder"@.len() != "PersonalFolder"@.len());
            reveal_strlit("PrintHoodFolder");
            assert("ProgramMenuFolder"@.len() != "PrintHoodFolder"@.len());
            reveal_strlit("ProgramFiles64Folder");
            assert("ProgramMenuFolder"@.len() != "ProgramFiles64Folder"@.len());
            reveal_strlit("ProgramFilesFolder");
            assert("ProgramMenuFolder"@.len() != "ProgramFilesFolder"@.len());
        },
        SystemFolder::RecentFolder => {
            reveal_strlit("RecentFolder");
            reveal_strlit("TARGETDIR");
            assert("RecentFolder"@.len() != "TARGETDIR"@.len());
            reveal_strlit("AdminToolsFolder");
            assert("RecentFolder"@.len() != "AdminToolsFolder"@.len());
            reveal_strlit("AppDataFolder");
            assert("RecentFolder"@.len() != "AppDataFolder"@.len());
            reveal_strlit("CommonAppDataFolder");
            assert("RecentFolder"@.len() != "CommonAppDataFolder"@.len());
            reveal_strlit("CommonFiles64Folder");
            assert("RecentFolder"@.len() != "CommonFiles64Folder"@.len());
            reveal_strlit("CommonFilesFolder");
            assert("RecentFolder"@.len() != "CommonFilesFolder"@.len());
            reveal_strlit("DesktopFolder");
            assert("RecentFolder"@.len() != "DesktopFolder"@.len());
            reveal_strlit("FavoritesFolder");
            assert("RecentFolder"@.len() != "FavoritesFolder"@.len());
            reveal_strlit("FontsFolder");
            assert("RecentFolder"@.len() != "FontsFolder"@.len());
            reveal_strlit("LocalAppDataFolder");
            assert("RecentFolder"@.len() != "LocalAppDataFolder"@.len());
            reveal_strlit("MyPicturesFolder");
            assert("RecentFolder"@.len() != "MyPicturesFolder"@.len());
            reveal_strlit("NetHoodFolder");
            assert("RecentFolder"@.len() != "NetHoodFolder"@.len());
            reveal_strlit("PersonalFolder");
            assert("RecentFolder"@.len() != "PersonalFolder"@.len());
            reveal_strlit("PrintHoodFolder");
            assert("RecentFolder"@.len() != "PrintHoodFolder"@.len());
            reveal_strlit("ProgramFiles64Folder");
            assert("RecentFolder"@.len() != "ProgramFiles64Folder"@.len());
            reveal_strlit("ProgramFilesFolder");
            assert("RecentFolder"@.len() != "ProgramFilesFolder"@.len());
            reveal_strlit("ProgramMenuFolder");
            assert("RecentFolder"@.len() != "ProgramMenuFolder"@.len());
        },
        SystemFolder::SendToFolder => {
            reveal_strlit("SendToFolder");
            reveal_strlit("TARGETDIR");
            assert("SendToFolder"@.len() != "TARGETDIR"@.len());
            reveal_strlit("AdminToolsFolder");
            assert("SendToFolder"@.len() != "AdminToolsFolder"@.len());
            reveal_strlit("AppDataFolder");
            assert("SendToFolder"@.len() != "AppDataFolder"@.len());
            reveal_strlit("CommonAppDataFolder");
            assert("SendToFolder"@.len() != "CommonAppDataFolder"@.len());
            reveal_strlit("CommonFiles64Folder");
            assert("SendToFolder"@.len() != "CommonFiles64Folder"@.len());
            reveal_strlit("CommonFilesFolder");
            assert("SendToFolder"@.len() != "CommonFilesFolder"@.len());
            reveal_strlit("DesktopFolder");
            assert("SendToFolder"@.len() != "DesktopFolder"@.len());
            reveal_strlit("FavoritesFolder");
            assert("SendToFolder"@.len() != "FavoritesFolder"@.len());
            reveal_strlit("FontsFolder");
            assert("SendToFolder"@.len() != "FontsFolder"@.len());
            reveal_strlit("LocalAppDataFolder");
            assert("SendToFolder"@.len() != "LocalAppDataFolder"@.len());
            reveal_strlit("MyPicturesFolder");
            assert("SendToFolder"@.len() != "MyPicturesFolder"@.len());
            reveal_strlit("NetHoodFolder");
            assert("SendToFolder"@.len() != "NetHoodFolder"@.len());
            reveal_strlit("PersonalFolder");
            assert("SendToFolder"@.len() != "PersonalFolder"@.len());
            reveal_strlit("PrintHoodFolder");
            assert("SendToFolder"@.len() != "PrintHoodFolder"@.len());
            reveal_strlit("ProgramFiles64Folder");
            assert("SendToFolder"@.len() != "ProgramFiles64Folder"@.len());
            reveal_strlit("ProgramFilesFolder");
            assert("SendToFolder"@.len() != "ProgramFilesFolder"@.len());
            reveal_strlit("ProgramMenuFolder");
            assert("SendToFolder"@.len() != "ProgramMenuFolder"@.len());
            reveal_strlit("RecentFolder");
            assert("SendToFolder"@[0] != "RecentFolder"@[0]);
        },
        SystemFolder::StartMenuFolder => {
            reveal_strlit("StartMenuFolder");
            reveal_strlit("TARGETDIR");
            assert("StartMenuFolder"@.len() != "TARGETDIR"@.len());
            reveal_strlit("AdminToolsFolder");
            assert("StartMenuFolder"@.len() != "AdminToolsFolder"@.len());
            reveal_strlit("AppDataFolder");
            assert("StartMenuFolder"@.len() != "AppDataFolder"@.len());
            reveal_strlit("CommonAppDataFolder");
            assert("StartMenuFolder"@.len() != "CommonAppDataFolder"@.len());
            reveal_strlit("CommonFiles64Folder");
            assert("StartMenuFolder"@.len() != "CommonFiles64Folder"@.len());
            reveal_strlit("CommonFilesFolder");
            assert("StartMenuFolder"@.len() != "CommonFilesFolder"@.len());
            reveal_strlit("DesktopFolder");
            assert("StartMenuFolder"@.len() != "DesktopFolder"@.len());
            reveal_strlit("FavoritesFolder");
            assert("StartMenuFolder"@[0] != "FavoritesFolder"@[0]);
            reveal_strlit("FontsFolder");
            assert("StartMenuFolder"@.len() != "FontsFolder"@.len());
            reveal_strlit("LocalAppDataFolder");
            assert("StartMenuFolder"@.len() != "LocalAppDataFolder"@.len());
            reveal_strlit("MyPicturesFolder");
            assert("StartMenuFolder"@.len() != "MyPicturesFolder"@.len());
            reveal_strlit("NetHoodFolder");
            assert("StartMenuFolder"@.len() != "NetHoodFolder"@.len());
            reveal_strlit("PersonalFolder");
            assert("StartMenuFolder"@.len() != "PersonalFolder"@.len());
            reveal_strlit("PrintHoodFolder");
            assert("StartMenuFolder"@[0] != "PrintHoodFolder"@[0]);
            reveal_strlit("ProgramFiles64Folder");
            assert("StartMenuFolder"@.len() != "ProgramFiles64Folder"@.len());
            reveal_strlit("ProgramFilesFolder");
            assert("StartMenuFolder"@.len() != "ProgramFilesFolder"@.len());
            reveal_strlit("ProgramMenuFolder");
            assert("StartMenuFolder"@.len() != "ProgramMenuFolder"@.len());
            reveal_strlit("RecentFolder");
            assert("StartMenuFolder"@.len() != "RecentFolder"@.len());
            reveal_strlit("SendToFolder");
            assert("StartMenuFolder"@.len() != "SendToFolder"@.len());
        },
        SystemFolder::StartupFolder => {
            reveal_strlit("StartupFolder");
            reveal_strlit("TARGETDIR");
            assert("StartupFolder"@.len() != "TARGETDIR"@.len());
            reveal_strlit("AdminToolsFolder");
            assert("StartupFolder"@.len() != "AdminToolsFolder"@.len());
            reveal_strlit("AppDataFolder");
            assert("StartupFolder"@[0] != "AppDataFolder"@[0]);
            reveal_strlit("CommonAppDataFolder");
            assert("StartupFolder"@.len() != "CommonAppDataFolder"@.len());
            reveal_strlit("CommonFiles64Folder");
            assert("StartupFolder"@.len() != "CommonFiles64Folder"@.len());
            reveal_strlit("CommonFilesFolder");
            assert("StartupFolder"@.len() != "CommonFilesFolder"@.len());
            reveal_strlit("DesktopFolder");
            assert("StartupFolder"@[0] != "DesktopFolder"@[0]);
            reveal_strlit("FavoritesFolder");
            assert("StartupFolder"@.len() != "FavoritesFolder"@.len());
            reveal_strlit("FontsFolder");
            assert("StartupFolder"@.len() != "FontsFolder"@.len());
            reveal_strlit("LocalAppDataFolder");
            assert("StartupFolder"@.len() != "LocalAppDataFolder"@.len());
            reveal_strlit("MyPicturesFolder");
            assert("StartupFolder"@.len() != "MyPicturesFolder"@.len());
            reveal_strlit("NetHoodFolder");
            assert("StartupFolder"@[0] != "NetHoodFolder"@[0]);
            reveal_strlit("PersonalFolder");
            assert("StartupFolder"@.len() != "PersonalFolder"@.len());
            reveal_strlit("PrintHoodFolder");
            assert("StartupFolder"@.len() != "PrintHoodFolder"@.len());
            reveal_strlit("ProgramFiles64Folder");
            assert("StartupFolder"@.len() != "ProgramFiles64Folder"@.len());
            reveal_strlit("ProgramFilesFolder");
            assert("StartupFolder"@.len() != "ProgramFilesFolder"@.len());
            reveal_strlit("ProgramMenuFolder");
            assert("StartupFolder"@.len() != "ProgramMenuFolder"@.len());
            reveal_strlit("RecentFolder");
            assert("StartupFolder"@.len() != "RecentFolder"@.len());
            reveal_strlit("SendToFolder");
            assert("StartupFolder"@.len() != "SendToFolder"@.len());
            reveal_strlit("StartMenuFolder");
            assert("StartupFolder"@.len() != "StartMenuFolder"@.len());
        },
        SystemFolder::System16Folder => {
            reveal_strlit("System16Folder");
            reveal_strlit("TARGETDIR");
            assert("System16Folder"@.len() != "TARGETDIR"@.len());
            reveal_strlit("AdminToolsFolder");
            assert("System16Folder"@.len() != "AdminToolsFolder"@.len());
            reveal_strlit("AppDataFolder");
            assert("System16Folder"@.len() != "AppDataFolder"@.len());
            reveal_strlit("CommonAppDataFolder");
            assert("System16Folder"@.len() != "CommonAppDataFolder"@.len());
            reveal_strlit("CommonFiles64Folder");
            assert("System16Folder"@.len() != "CommonFiles64Folder"@.len());
            reveal_strlit("CommonFilesFolder");
            assert("System16Folder"@.len() != "CommonFilesFolder"@.len());
            reveal_strlit("DesktopFolder");
            assert("System16Folder"@.len() != "DesktopFolder"@.len());
            reveal_strlit("FavoritesFolder");
            assert("System16Folder"@.len() != "FavoritesFolder"@.len());
            reveal_strlit("FontsFolder");
            assert("System16Folder"@.len() != "FontsFolder"@.len());
            reveal_strlit("LocalAppDataFolder");
            assert("System16Folder"@.len() != "LocalAppDataFolder"@.len());
            reveal_strlit("MyPicturesFolder");
            assert("System16Folder"@.len() != "MyPicturesFolder"@.len());
            reveal_strlit("NetHoodFolder");
            assert("System16Folder"@.len() != "NetHoodFolder"@.len());
            reveal_strlit("PersonalFolder");
            assert("System16Folder"@[0] != "PersonalFolder"@[0]);
            reveal_strlit("PrintHoodFolder");
            assert("System16Folder"@.len() != "PrintHoodFolder"@.len());
            reveal_strlit("ProgramFiles64Folder");
            assert("System16Folder"@.len() != "ProgramFiles64Folder"@.len());
            reveal_strlit("ProgramFilesFolder");
            assert("System16Folder"@.len() != "ProgramFilesFolder"@.len());
            reveal_strlit("ProgramMenuFolder");
            assert("System16Folder"@.len() != "ProgramMenuFolder"@.len());
            reveal_strlit("RecentFolder");
            assert("System16Folder"@.len() != "RecentFolder"@.len());
            reveal_strlit("SendToFolder");
            assert("System16Folder"@.len() != "SendToFolder"@.len());
            reveal_strlit("StartMenuFolder");
            assert("System16Folder"@.len() != "StartMenuFolder"@.len());
            reveal_strlit("StartupFolder");
            assert("System16Folder"@.len() != "StartupFolder"@.len());
        },
        SystemFolder::System64Folder => {
            reveal_strlit("System64Folder");
            reveal_strlit("TARGETDIR");
            assert("System64Folder"@.len() != "TARGETDIR"@.len());
            reveal_strlit("AdminToolsFolder");
            assert("System64Folder"@.len() != "AdminToolsFolder"@.len());
            reveal_strlit("AppDataFolder");
            assert("System64Folder"@.len() != "AppDataFolder"@.len());
            reveal_strlit("CommonAppDataFolder");
            assert("System64Folder"@.len() != "CommonAppDataFolder"@.len());
            reveal_strlit("CommonFiles64Folder");
            assert("System64Folder"@.len() != "CommonFiles64Folder"@.len());
            reveal_strlit("CommonFilesFolder");
            assert("System64Folder"@.len() != "CommonFilesFolder"@.len());
            reveal_strlit("DesktopFolder");
            assert("System64Folder"@.len() != "DesktopFolder"@.len());
            reveal_strlit("FavoritesFolder");
            assert("System64Folder"@.len() != "FavoritesFolder"@.len());
            reveal_strlit("FontsFolder");
            assert("System64Folder"@.len() != "FontsFolder"@.len());
            reveal_strlit("LocalAppDataFolder");
            assert("System64Folder"@.len() != "LocalAppDataFolder"@.len());
            reveal_strlit("MyPicturesFolder");
            assert("System64Folder"@.len() != "MyPicturesFolder"@.len());
            reveal_strlit("NetHoodFolder");
            assert("System64Folder"@.len() != "NetHoodFolder"@.len());
            reveal_strlit("PersonalFolder");
            assert("System64Folder"@[0] != "PersonalFolder"@[0]);
            reveal_strlit("PrintHoodFolder");
            assert("System64Folder"@.len() != "PrintHoodFolder"@.len());
            reveal_strlit("ProgramFiles64Folder");
            assert("System64Folder"@.len() != "ProgramFiles64Folder"@.len());
            reveal_strlit("ProgramFilesFolder");
            assert("System64Folder"@.len() != "ProgramFilesFolder"@.len());
            reveal_strlit("ProgramMenuFolder");
            assert("System64Folder"@.len() != "ProgramMenuFolder"@.len());
            reveal_strlit("RecentFolder");
            assert("System64Folder"@.len() != "RecentFolder"@.len());
            reveal_strlit("SendToFolder");
            assert("System64Folder"@.len() != "SendToFolder"@.len());
            reveal_strlit("StartMenuFolder");
            assert("System64Folder"@.len() != "StartMenuFolder"@.len());
            reveal_strlit("StartupFolder");
            assert("System64Folder"@.len() != "StartupFolder"@.len());
            reveal_strlit("System16Folder");
            assert("System64Folder"@[6] != "System16Folder"@[6]);
        },
        SystemFolder::SystemFolder => {
            reveal_strlit("SystemFolder");
            reveal_strlit("TARGETDIR");
            assert("SystemFolder"@.len() != "TARGETDIR"@.len());
            reveal_strlit("AdminToolsFolder");
            assert("SystemFolder"@.len() != "AdminToolsFolder"@.len());
            reveal_strlit("AppDataFolder");
            assert("SystemFolder"@.len() != "AppDataFolder"@.len());
            reveal_strlit("CommonAppDataFolder");
            assert("SystemFolder"@.len() != "CommonAppDataFolder"@.len());
            reveal_strlit("CommonFiles64Folder");
            assert("SystemFolder"@.len() != "CommonFiles64Folder"@.len());
            reveal_strlit("CommonFilesFolder");
            assert("SystemFolder"@.len() != "CommonFilesFolder"@.len());
            reveal_strlit("DesktopFolder");
            assert("SystemFolder"@.len() != "DesktopFolder"@.len());
            reveal_strlit("FavoritesFolder");
            assert("SystemFolder"@.len() != "FavoritesFolder"@.len());
            reveal_strlit("FontsFolder");
            assert("SystemFolder"@.len() != "FontsFolder"@.len());
            reveal_strlit("LocalAppDataFolder");
            assert("SystemFolder"@.len() != "LocalAppDataFolder"@.len());
            reveal_strlit("MyPicturesFolder");
            assert("SystemFolder"@.len() != "MyPicturesFolder"@.len());
            reveal_strlit("NetHoodFolder");
            assert("SystemFolder"@.len() != "NetHoodFolder"@.len());
            reveal_strlit("PersonalFolder");
            assert("SystemFolder"@.len() != "PersonalFolder"@.len());
            reveal_strlit("PrintHoodFolder");
            assert("SystemFolder"@.len() != "PrintHoodFolder"@.len());
            reveal_strlit("ProgramFiles64Folder");
            assert("SystemFolder"@.len() != "ProgramFiles64Folder"@.len());
            reveal_strlit("ProgramFilesFolder");
            assert("SystemFolder"@.len() != "ProgramFilesFolder"@.len());
            reveal_strlit("ProgramMenuFolder");
            assert("SystemFolder"@.len() != "ProgramMenuFolder"@.len());
            reveal_strlit("RecentFolder");
            assert("SystemFolder"@[0] != "RecentFolder"@[0]);
            reveal_strlit("SendToFolder");
            assert("SystemFolder"@[1] != "SendToFolder"@[1]);
            reveal_strlit("StartMenuFolder");
            assert("SystemFolder"@.len() != "StartMenuFolder"@.len());
            reveal_strlit("StartupFolder");
            assert("SystemFolder"@.len() != "StartupFolder"@.len());
            reveal_strlit("System16Folder");
            assert("SystemFolder"@.len() != "System16Folder"@.len());
            reveal_strlit("System64Folder");
            assert("SystemFolder"@.len() != "System64Folder"@.len());
        },
        SystemFolder::TempFolder => {
            reveal_strlit("TempFolder");
            reveal_strlit("TARGETDIR");
            assert("TempFolder"@.len() != "TARGETDIR"@.len());
            reveal_strlit("AdminToolsFolder");
            assert("TempFolder"@.len() != "AdminToolsFolder"@.len());
            reveal_strlit("AppDataFolder");
            assert("TempFolder"@.len() != "AppDataFolder"@.len());
            reveal_strlit("CommonAppDataFolder");
            assert("TempFolder"@.len() != "CommonAppDataFolder"@.len());
            reveal_strlit("CommonFiles64Folder");
            assert("TempFolder"@.len() != "CommonFiles64Folder"@.len());
            reveal_strlit("CommonFilesFolder");
            assert("TempFolder"@.len() != "CommonFilesFolder"@.len());
            reveal_strlit("DesktopFolder");
            assert("TempFolder"@.len() != "DesktopFolder"@.len());
            reveal_strlit("FavoritesFolder");
            assert("TempFolder"@.len() != "FavoritesFolder"@.len());
            reveal_strlit("FontsFolder");
            assert("TempFolder"@.len() != "FontsFolder"@.len());
            reveal_strlit("LocalAppDataFolder");
            assert("TempFolder"@.len() != "LocalAppDataFolder"@.len());
            reveal_strlit("MyPicturesFolder");
            assert("TempFolder"@.len() != "MyPicturesFolder"@.len());
            reveal_strlit("NetHoodFolder");
            assert("TempFolder"@.len() != "NetHoodFolder"@.len());
            reveal_strlit("PersonalFolder");
            assert("TempFolder"@.len() != "PersonalFolder"@.len());
            reveal_strlit("PrintHoodFolder");
            assert("TempFolder"@.len() != "PrintHoodFolder"@.len());
            reveal_strlit("ProgramFiles64Folder");
            assert("TempFolder"@.len() != "ProgramFiles64Folder"@.len());
            reveal_strlit("ProgramFilesFolder");
            assert("TempFolder"@.len() != "ProgramFilesFolder"@.len());
            reveal_strlit("ProgramMenuFolder");
            assert("TempFolder"@.len() != "ProgramMenuFolder"@.len());
            reveal_strlit("RecentFolder");
            assert("TempFolder"@.len() != "RecentFolder"@.len());
            reveal_strlit("SendToFolder");
            assert("TempFolder"@.len() != "SendToFolder"@.len());
            reveal_strlit("StartMenuFolder");
            assert("TempFolder"@.len() != "StartMenuFolder"@.len());
            reveal_strlit("StartupFolder");
            assert("TempFolder"@.len() != "StartupFolder"@.len());
            reveal_strlit("System16Folder");
            assert("TempFolder"@.len() != "System16Folder"@.len());
            reveal_strlit("System64Folder");
            assert("TempFolder"@.len() != "System64Folder"@.len());
            reveal_strlit("SystemFolder");
            assert("TempFolder"@.len() != "SystemFolder"@.len());
        },
        SystemFolder::TemplateFolder => {
            reveal_strlit("TemplateFolder");
            reveal_strlit("TARGETDIR");
            assert("TemplateFolder"@.len() != "TARGETDIR"@.len());
            reveal_strlit("AdminToolsFolder");
            assert("TemplateFolder"@.len() != "AdminToolsFolder"@.len());
            reveal_strlit("AppDataFolder");
            assert("TemplateFolder"@.len() != "AppDataFolder"@.len());
            reveal_strlit("CommonAppDataFolder");
            assert("TemplateFolder"@.len() != "CommonAppDataFolder"@.len());
            reveal_strlit("CommonFiles64Folder");
            assert("TemplateFolder"@.len() != "CommonFiles64Folder"@.len());
            reveal_strlit("CommonFilesFolder");
            assert("TemplateFolder"@.len() != "CommonFilesFolder"@.len());
            reveal_strlit("DesktopFolder");
            assert("TemplateFolder"@.len() != "DesktopFolder"@.len());
            reveal_strlit("FavoritesFolder");
            assert("TemplateFolder"@.len() != "FavoritesFolder"@.len());
            reveal_strlit("FontsFolder");
            assert("TemplateFolder"@.len() != "FontsFolder"@.len());
            reveal_strlit("LocalAppDataFolder");
            assert("TemplateFolder"@.len() != "LocalAppDataFolder"@.len());
            reveal_strlit("MyPicturesFolder");
            assert("TemplateFolder"@.len() != "MyPicturesFolder"@.len());
            reveal_strlit("NetHoodFolder");
            assert("TemplateFolder"@.len() != "NetHoodFolder"@.len());
            reveal_strlit("PersonalFolder");
            assert("TemplateFolder"@[0] != "PersonalFolder"@[0]);
            reveal_strlit("PrintHoodFolder");
            assert("TemplateFolder"@.len() != "PrintHoodFolder"@.len());
            reveal_strlit("ProgramFiles64Folder");
            assert("TemplateFolder"@.len() != "ProgramFiles64Folder"@.len());
            reveal_strlit("ProgramFilesFolder");
            assert("TemplateFolder"@.len() != "ProgramFilesFolder"@.len());
            reveal_strlit("ProgramMenuFolder");
            assert("TemplateFolder"@.len() != "ProgramMenuFolder"@.len());
            reveal_strlit("RecentFolder");
            assert("TemplateFolder"@.len() != "RecentFolder"@.len());
            reveal_strlit("SendToFolder");
            assert("TemplateFolder"@.len() != "SendToFolder"@.len());
            reveal_strlit("StartMenuFolder");
            assert("TemplateFolder"@.len() != "StartMenuFolder"@.len());
            reveal_strlit("StartupFolder");
            assert("TemplateFolder"@.len() != "StartupFolder"@.len());
            reveal_strlit("System16Folder");
            assert("TemplateFolder"@[0] != "System16Folder"@[0]);
            reveal_strlit("System64Folder");
            assert("TemplateFolder"@[0] != "System64Folder"@[0]);
            reveal_strlit("SystemFolder");
            assert("TemplateFolder"@.len() != "SystemFolder"@.len());
            reveal_strlit("TempFolder");
            assert("TemplateFolder"@.len() != "TempFolder"@.len());
        },
        SystemFolder::WindowsFolder => {
            reveal_strlit("WindowsFolder");
            reveal_strlit("TARGETDIR");
            assert("WindowsFolder"@.len() != "TARGETDIR"@.len());
            reveal_strlit("AdminToolsFolder");
            assert("WindowsFolder"@.len() != "AdminToolsFolder"@.len());
            reveal_strlit("AppDataFolder");
            assert("WindowsFolder"@[0] != "AppDataFolder"@[0]);
            reveal_strlit("CommonAppDataFolder");
            assert("WindowsFolder"@.len() != "CommonAppDataFolder"@.len());
            reveal_strlit("CommonFiles64Folder");
            assert("WindowsFolder"@.len() != "CommonFiles64Folder"@.len());
            reveal_strlit("CommonFilesFolder");
            assert("WindowsFolder"@.len() != "CommonFilesFolder"@.len());
            reveal_strlit("DesktopFolder");
            assert("WindowsFolder"@[0] != "DesktopFolder"@[0]);
            reveal_strlit("FavoritesFolder");
            assert("WindowsFolder"@.len() != "FavoritesFolder"@.len());
            reveal_strlit("FontsFolder");
            assert("WindowsFolder"@.len() != "FontsFolder"@.len());
            reveal_strlit("LocalAppDataFolder");
            assert("WindowsFolder"@.len() != "LocalAppDataFolder"@.len());
            reveal_strlit("MyPicturesFolder");
            assert("WindowsFolder"@.len() != "MyPicturesFolder"@.len());
            reveal_strlit("NetHoodFolder");
            assert("WindowsFolder"@[0] != "NetHoodFolder"@[0]);
            reveal_strlit("PersonalFolder");
            assert("WindowsFolder"@.len() != "PersonalFolder"@.len());
            reveal_strlit("PrintHoodFolder");
            assert("WindowsFolder"@.len() != "PrintHoodFolder"@.len());
            reveal_strlit("ProgramFiles64Folder");
            assert("WindowsFolder"@.len() != "ProgramFiles64Folder"@.len());
            reveal_strlit("ProgramFilesFolder");
            assert("WindowsFolder"@.len() != "ProgramFilesFolder"@.len());
            reveal_strlit("ProgramMenuFolder");
            assert("WindowsFolder"@.len() != "ProgramMenuFolder"@.len());
            reveal_strlit("RecentFolder");
            assert("WindowsFolder"@.len() != "RecentFolder"@.len());
            reveal_strlit("SendToFolder");
            assert("WindowsFolder"@.len() != "SendToFolder"@.len());
            reveal_strlit("StartMenuFolder");
            assert("WindowsFolder"@.len() != "StartMenuFolder"@.len());
            reveal_strlit("StartupFolder");
            assert("WindowsFolder"@[0] != "StartupFolder"@[0]);
            reveal_strlit("System16Folder");
            assert("WindowsFolder"@.len() != "System16Folder"@.len());
            reveal_strlit("System64Folder");
            assert("WindowsFolder"@.len() != "System64Folder"@.len());
            reveal_strlit("SystemFolder");
            assert("WindowsFolder"@.len() != "SystemFolder"@.len());
            reveal_strlit("TempFolder");
            assert("WindowsFolder"@.len() != "TempFolder"@.len());
            reveal_strlit("TemplateFolder");
            assert("WindowsFolder"@.len() != "TemplateFolder"@.len());
        },
        SystemFolder::WindowsVolume => {
            reveal_strlit("WindowsVolume");
            reveal_strlit("TARGETDIR");
            assert("WindowsVolume"@.len() != "TARGETDIR"@.len());
            reveal_strlit("AdminToolsFolder");
            assert("WindowsVolume"@.len() != "AdminToolsFolder"@.len());
            reveal_strlit("AppDataFolder");
            assert("WindowsVolume"@[0] != "AppDataFolder"@[0]);
            reveal_strlit("CommonAppDataFolder");
            assert("WindowsVolume"@.len() != "CommonAppDataFolder"@.len());
            reveal_strlit("CommonFiles64Folder");
            assert("WindowsVolume"@.len() != "CommonFiles64Folder"@.len());
            reveal_strlit("CommonFilesFolder");
            assert("WindowsVolume"@.len() != "CommonFilesFolder"@.len());
            reveal_strlit("DesktopFolder");
            assert("WindowsVolume"@[0] != "DesktopFolder"@[0]);
            reveal_strlit("FavoritesFolder");
            assert("WindowsVolume"@.len() != "FavoritesFolder"@.len());
            reveal_strlit("FontsFolder");
            assert("WindowsVolume"@.len() != "FontsFolder"@.len());
            reveal_strlit("LocalAppDataFolder");
            assert("WindowsVolume"@.len() != "LocalAppDataFolder"@.len());
            reveal_strlit("MyPicturesFolder");
            assert("WindowsVolume"@.len() != "MyPicturesFolder"@.len());
            reveal_strlit("NetHoodFolder");
            assert("WindowsVolume"@[0] != "NetHoodFolder"@[0]);
            reveal_strlit("PersonalFolder");
            assert("WindowsVolume"@.len() != "PersonalFolder"@.len());
            reveal_strlit("PrintHoodFolder");
            assert("WindowsVolume"@.len() != "PrintHoodFolder"@.len());
            reveal_strlit("ProgramFiles64Folder");
            assert("WindowsVolume"@.len() != "ProgramFiles64Folder"@.len());
            reveal_strlit("ProgramFilesFolder");
            assert("WindowsVolume"@.len() != "ProgramFilesFolder"@.len());
            reveal_strlit("ProgramMenuFolder");
            assert("WindowsVolume"@.len() != "ProgramMenuFolder"@.len());
            reveal_strlit("RecentFolder");
            assert("WindowsVolume"@.len() != "RecentFolder"@.len());
            reveal_strlit("SendToFolder");
            assert("WindowsVolume"@.len() != "SendToFolder"@.len());
            reveal_strlit("StartMenuFolder");
            assert("WindowsVolume"@.len() != "StartMenuFolder"@.len());
            reveal_strlit("StartupFolder");
            assert("WindowsVolume"@[0] != "StartupFolder"@[0]);
            reveal_strlit("System16Folder");
            assert("WindowsVolume"@.len() != "System16Folder"@.len());
            reveal_strlit("System64Folder");
            assert("WindowsVolume"@.len() != "System64Folder"@.len());
            reveal_strlit("SystemFolder");
            assert("WindowsVolume"@.len() != "SystemFolder"@.len());
            reveal_strlit("TempFolder");
            assert("WindowsVolume"@.len() != "TempFolder"@.len());
            reveal_strlit("TemplateFolder");
            assert("WindowsVolume"@.len() != "TemplateFolder"@.len());
            reveal_strlit("WindowsFolder");
            assert("WindowsVolume"@[7] != "WindowsFolder"@[7]);
        },
    }
}

/// Every folder name is a valid identifier that starts with a capital
/// letter.
pub proof fn lemma_folder_name_valid(f: SystemFolder)
    ensures
        valid_identifier(folder_name(f)),
        'A' <= folder_name(f)[0] <= 'Z',
{
    match f {
        SystemFolder::TARGETDIR => {
            reveal_strlit("TARGETDIR");
        }
        SystemFolder::AdminToolsFolder => {
            reveal_strlit("AdminToolsFolder");
        }
        SystemFolder::AppDataFolder => {
            reveal_strlit("AppDataFolder");
        }
        SystemFolder::CommonAppDataFolder => {
            reveal_strlit("CommonAppDataFolder");
        }
        SystemFolder::CommonFiles64Folder => {
            reveal_strlit("CommonFiles64Folder");
        }
        SystemFolder::CommonFilesFolder => {
            reveal_strlit("CommonFilesFolder");
        }
        SystemFolder::DesktopFolder => {
            reveal_strlit("DesktopFolder");
        }
        SystemFolder::FavoritesFolder => {
            reveal_strlit("FavoritesFolder");
        }
        SystemFolder::FontsFolder => {
            reveal_strlit("FontsFolder");
        }
        SystemFolder::LocalAppDataFolder => {
            reveal_strlit("LocalAppDataFolder");
        }
        SystemFolder::MyPicturesFolder => {
            reveal_strlit("MyPicturesFolder");
        }
        SystemFolder::NetHoodFolder => {
            reveal_strlit("NetHoodFolder");
        }
        SystemFolder::PersonalFolder => {
            reveal_strlit("PersonalFolder");
        }
        SystemFolder::PrintHoodFolder => {
            reveal_strlit("PrintHoodFolder");
        }
        SystemFolder::ProgramFiles64Folder => {
            reveal_strlit("ProgramFiles64Folder");
        }
        SystemFolder::ProgramFilesFolder => {
            reveal_strlit("ProgramFilesFolder");
        }
        SystemFolder::ProgramMenuFolder => {
            reveal_strlit("ProgramMenuFolder");
        }
        SystemFolder::RecentFolder => {
            reveal_strlit("RecentFolder");
        }
        SystemFolder::SendToFolder => {
            reveal_strlit("SendToFolder");
        }
        SystemFolder::StartMenuFolder => {
            reveal_strlit("StartMenuFolder");
        }
        SystemFolder::StartupFolder => {
            reveal_strlit("StartupFolder");
        }
        SystemFolder::System16Folder => {
            reveal_strlit("System16Folder");
        }
        SystemFolder::System64Folder => {
            reveal_strlit("System64Folder");
        }
        SystemFolder::SystemFolder => {
            reveal_strlit("SystemFolder");
        }
        SystemFolder::TempFolder => {
            reveal_strlit("TempFolder");
        }
        SystemFolder::TemplateFolder => {
            reveal_strlit("TemplateFolder");
        }
        SystemFolder::WindowsFolder => {
            reveal_strlit("WindowsFolder");
        }
        SystemFolder::WindowsVolume => {
            reveal_strlit("WindowsVolume");
        }
    }
}

} // verus!
