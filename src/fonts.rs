//! Where fonts are looked for, and what a scan does with each directory
//! entry it meets. The scan itself reads the file system and lives with
//! the application.

use vstd::prelude::*;

verus! {

/// The operating systems whose font directories are known.
#[derive(PartialEq, Eq, Structural, Clone, Copy, Debug)]
pub enum Platform {
    Windows,
    MacOs,
    Linux,
    Other,
}

/// A directory to scan for fonts, and whether its subdirectories are scanned too.
#[derive(Debug)]
pub struct FontDir {
    pub path: String,
    pub recursive: bool,
}

/// What a scan does with one directory entry.
#[derive(PartialEq, Eq, Structural, Clone, Copy, Debug)]
pub enum EntryAction {
    /// Scan the subdirectory.
    Descend,
    /// Load the file as a font.
    Collect,
    /// Leave the entry alone.
    Skip,
}

/// How many directory levels below a font directory a scan goes at most.
pub const MAX_FONT_DEPTH: usize = 16;

/// Whether a file extension is one of a font file: TrueType, OpenType or a
/// TrueType collection.
pub open spec fn font_extension(ext: Seq<char>) -> bool {
    ext == "ttf"@ || ext == "otf"@ || ext == "ttc"@
}

/// Whether `ext` is the extension of a font file.
pub fn is_font_extension(ext: &str) -> (r: bool)
    ensures
        r == font_extension(ext@),
{
    let e = String::from_str(ext);
    e == String::from_str("ttf") || e == String::from_str("otf") || e == String::from_str("ttc")
}

/// What a scan does with an entry `depth` levels below a font directory
/// (its own entries are at depth 0): it descends into subdirectories of
/// recursive directories down to `MAX_FONT_DEPTH`, and loads font files.
pub open spec fn entry_action_of(is_dir: bool, ext: Option<Seq<char>>, recursive: bool, depth: nat) -> EntryAction {
    if is_dir {
        if recursive && depth < MAX_FONT_DEPTH {
            EntryAction::Descend
        } else {
            EntryAction::Skip
        }
    } else if ext is Some && font_extension(ext->Some_0) {
        EntryAction::Collect
    } else {
        EntryAction::Skip
    }
}

/// Decides what a scan does with a directory entry.
pub fn entry_action(is_dir: bool, ext: Option<&str>, recursive: bool, depth: usize) -> (r: EntryAction)
    ensures
        r == entry_action_of(
            is_dir,
            match ext {
                Some(e) => Some(e@),
                None => None,
            },
            recursive,
            depth as nat,
        ),
{
    if is_dir {
        if recursive && depth < MAX_FONT_DEPTH {
            EntryAction::Descend
        } else {
            EntryAction::Skip
        }
    } else {
        match ext {
            Some(e) => if is_font_extension(e) {
                EntryAction::Collect
            } else {
                EntryAction::Skip
            },
            None => EntryAction::Skip,
        }
    }
}

/// `rel` below the directory `base`.
pub open spec fn below(base: Seq<char>, sep: Seq<char>, rel: Seq<char>) -> Seq<char> {
    base + sep + rel
}

/// The font directories of `platform`, as (path, recursive) pairs, given the
/// user's home directory and, on Windows, the system directory.
pub open spec fn font_dirs_of(platform: Platform, home: Option<Seq<char>>, windir: Option<Seq<char>>) -> Seq<(Seq<char>, bool)> {
    match platform {
        Platform::Windows => match windir {
            Some(w) => seq![(below(w, "\\"@, "Fonts"@), false)],
            None => Seq::empty(),
        },
        Platform::MacOs => {
            let system = seq![("/System/Library/Fonts"@, false), ("/Library/Fonts"@, false)];
            match home {
                Some(h) => system.push((below(h, "/"@, "Library/Fonts"@), false)),
                None => system,
            }
        },
        Platform::Linux => {
            let system = seq![("/usr/share/fonts"@, true), ("/usr/local/share/fonts"@, true)];
            match home {
                Some(h) => system.push((below(h, "/"@, ".local/share/fonts"@), true)),
                None => system,
            }
        },
        Platform::Other => Seq::empty(),
    }
}

/// The pairs of a list of font directories.
pub open spec fn dir_pairs(dirs: Seq<FontDir>) -> Seq<(Seq<char>, bool)> {
    dirs.map_values(|d: FontDir| (d.path@, d.recursive))
}

fn dir_below(base: &str, sep: &str, rel: &str, recursive: bool) -> (r: FontDir)
    ensures
        r.path@ == below(base@, sep@, rel@),
        r.recursive == recursive,
{
    let mut path = String::from_str(base);
    path.append(sep);
    path.append(rel);
    FontDir { path, recursive }
}

fn dir_at(path: &str, recursive: bool) -> (r: FontDir)
    ensures
        r.path@ == path@,
        r.recursive == recursive,
{
    FontDir { path: String::from_str(path), recursive }
}

/// The directories to scan for fonts on `platform`.
pub fn font_dirs(platform: Platform, home: Option<String>, windir: Option<String>) -> (r: Vec<FontDir>)
    ensures
        dir_pairs(r@) == font_dirs_of(
            platform,
            match home {
                Some(h) => Some(h@),
                None => None,
            },
            match windir {
                Some(w) => Some(w@),
                None => None,
            },
        ),
{
    let mut dirs: Vec<FontDir> = Vec::new();
    match platform {
        Platform::Windows => {
            if let Some(w) = windir {
                dirs.push(dir_below(w.as_str(), "\\", "Fonts", false));
            }
        },
        Platform::MacOs => {
            dirs.push(dir_at("/System/Library/Fonts", false));
            dirs.push(dir_at("/Library/Fonts", false));
            if let Some(h) = home {
                dirs.push(dir_below(h.as_str(), "/", "Library/Fonts", false));
            }
        },
        Platform::Linux => {
            dirs.push(dir_at("/usr/share/fonts", true));
            dirs.push(dir_at("/usr/local/share/fonts", true));
            if let Some(h) = home {
                dirs.push(dir_below(h.as_str(), "/", ".local/share/fonts", true));
            }
        },
        Platform::Other => {},
    }
    proof {
        assert(dir_pairs(dirs@) =~= font_dirs_of(
            platform,
            match home {
                Some(h) => Some(h@),
                None => None,
            },
            match windir {
                Some(w) => Some(w@),
                None => None,
            },
        ));
    }
    dirs
}

} // verus!
