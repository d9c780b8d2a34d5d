use vstd::prelude::*;

verus! {

/// The container formats an image can be written in.
#[derive(Clone, Copy, Debug, PartialEq, Eq, Structural)]
pub enum FileFormat {
    Png,
    Pgm,
}

/// A parsed command line.
pub struct Cli {
    pub command: Command,
}

/// What the program is asked to do.
pub enum Command {
    /// Turns a file (or standard input when `input` is `None`) into an image.
    Encode { input: Option<String>, output: Option<String>, format: Option<FileFormat> },
    /// Turns an image (or standard input when `input` is `None`) back into the file.
    Decode { input: Option<String>, output: Option<String>, format: Option<FileFormat> },
}

/// The extension of the file named by `path`, as `std::path::Path::extension` finds it.
pub uninterp spec fn extension_of(path: Seq<char>) -> Option<Seq<char>>;

/// `s` equals `lower`, a word of lower-case ASCII letters, but for the case of its
/// ASCII letters.
pub open spec fn eq_ignore_ascii_case(s: Seq<char>, lower: Seq<char>) -> bool {
    &&& s.len() == lower.len()
    &&& forall|i: int|
        0 <= i < s.len() ==> s[i] == lower[i] || ('A' <= s[i] <= 'Z' && s[i] as u32 + 32
            == lower[i] as u32)
}

/// The format of ours that a file extension names.
pub open spec fn extension_format(ext: Seq<char>) -> Option<FileFormat> {
    if eq_ignore_ascii_case(ext, "png"@) {
        Some(FileFormat::Png)
    } else if eq_ignore_ascii_case(ext, "pbm"@) || eq_ignore_ascii_case(ext, "pam"@)
        || eq_ignore_ascii_case(ext, "ppm"@) || eq_ignore_ascii_case(ext, "pgm"@) {
        Some(FileFormat::Pgm)
    } else {
        None
    }
}

/// The format chosen: the one given, else the one guessed, else PNG.
pub open spec fn format_choice(provided: Option<FileFormat>, guessed: Option<FileFormat>) -> FileFormat {
    match provided {
        Some(f) => f,
        None => match guessed {
            Some(g) => g,
            None => FileFormat::Png,
        },
    }
}

/// The format that a path names by its extension, if it is one of ours.
pub open spec fn path_format(path: Option<Seq<char>>) -> Option<FileFormat> {
    match path {
        Some(p) => match extension_of(p) {
            Some(e) => extension_format(e),
            None => None,
        },
        None => None,
    }
}

/// Relies on `std::path::Path::extension`: the extension depends on the path alone.
#[verifier::external_body]
fn path_extension(path: &str) -> (r: Option<String>)
    ensures
        r is Some <==> extension_of(path@) is Some,
        r matches Some(e) ==> extension_of(path@) == Some(e@),
{
    std::path::Path::new(path).extension().and_then(|e| e.to_str()).map(|e| e.to_string())
}

/// Relies on image's `ImageFormat::from_extension`, which compares the extension in
/// ASCII lower case with its list: `png` is PNG, `pbm`, `pam`, `ppm` and `pgm` are PNM,
/// taken here as `Pgm`; the other formats it knows are not ours.
#[verifier::external_body]
fn format_of_extension(ext: &str) -> (r: Option<FileFormat>)
    ensures
        r == extension_format(ext@),
{
    match image::ImageFormat::from_extension(ext) {
        Some(image::ImageFormat::Png) => Some(FileFormat::Png),
        Some(image::ImageFormat::Pnm) => Some(FileFormat::Pgm),
        _ => None,
    }
}

/// The format to use: the one given, else the one guessed from a file name, else PNG.
pub fn choose_format(provided: Option<FileFormat>, guessed: Option<FileFormat>) -> (r: FileFormat)
    ensures
        r == format_choice(provided, guessed),
{
    match provided {
        Some(f) => f,
        None => match guessed {
            Some(g) => g,
            None => FileFormat::Png,
        },
    }
}

/// The format to use given an explicit choice and a file extension: the choice, else
/// the format the extension names, else PNG.
pub fn format_from_hint(provided: Option<FileFormat>, extension: Option<&str>) -> (r: FileFormat)
    ensures
        r == format_choice(
            provided,
            match extension {
                Some(e) => extension_format(e@),
                None => None,
            },
        ),
{
    let guessed = match extension {
        Some(e) => format_of_extension(e),
        None => None,
    };
    choose_format(provided, guessed)
}

/// Determines the image format, by falling priority: `provided`, the extension of
/// `path`, PNG.
pub fn determine_format(path: &Option<String>, provided: Option<FileFormat>) -> (r: FileFormat)
    ensures
        r == format_choice(
            provided,
            path_format(
                match path {
                    Some(p) => Some(p@),
                    None => None,
                },
            ),
        ),
{
    match provided {
        Some(f) => f,
        None => match path {
            None => FileFormat::Png,
            Some(p) => {
                let ext = path_extension(p.as_str());
                match ext {
                    Some(e) => format_from_hint(None, Some(e.as_str())),
                    None => FileFormat::Png,
                }
            },
        },
    }
}

impl Command {
    /// The image format of this command: an encoding is named after its output, a
    /// decoding after its input.
    pub fn image_format(&self) -> (r: FileFormat)
        ensures
            match self {
                Command::Encode { output, format, .. } => r == format_choice(
                    *format,
                    path_format(
                        match output {
                            Some(p) => Some(p@),
                            None => None,
                        },
                    ),
                ),
                Command::Decode { input, format, .. } => r == format_choice(
                    *format,
                    path_format(
                        match input {
                            Some(p) => Some(p@),
                            None => None,
                        },
                    ),
                ),
            },
    {
        match self {
            Command::Encode { output, format, .. } => determine_format(output, *format),
            Command::Decode { input, format, .. } => determine_format(input, *format),
        }
    }
}

} // verus!
