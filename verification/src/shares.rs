//! Getting shares back from their custodians: typed in by hand, read from a
//! disc, or read from image files in a directory.
//!
//! The getter decides; it reads nothing itself. The driver asks it what to
//! do, does it, and reports what came of it.

use vstd::prelude::*;
use vstd::utf8::encode_utf8;
use crate::config::texts_of;
use crate::hexcodec::{hex_bytes, is_hex_text};
use crate::policy::SHARE_LEN;
use crate::share::{Share, ShareFormatError};
use crate::sharing::Verifier;
use crate::text::{join_path, joined, strip_whitespace, without_whitespace};

verus! {

/// The device that holds a disc unless another is named.
pub const DEFAULT_CDR_DEV: &'static str = "/dev/cdrom";

/// The pattern of the names of image files that hold a share.
pub const SHARE_IMAGE_PATTERN: &'static str = "share_*-of-*.iso";

/// Number of bytes of a line that holds a share: its hexadecimal text and
/// the end of the line.
pub const SHARE_LINE_LEN: usize = 67;

/// The medium that shares come from.
#[derive(Clone, Copy, Debug, PartialEq, Eq, Structural)]
pub enum ShareMethod {
    /// A disc in a drive.
    Cdrom,
    /// Image files in a directory.
    Iso,
    /// The keyboard.
    Stdin,
}

impl Default for ShareMethod {
    fn default() -> (r: ShareMethod)
        ensures
            r == ShareMethod::Cdrom,
    {
        ShareMethod::Cdrom
    }
}

/// Why a line that was typed in is no share, or what to say before the
/// first line.
#[derive(Clone, Copy, Debug, PartialEq, Eq, Structural)]
pub enum Hint {
    /// Nothing was entered yet.
    Enter,
    /// The input ended before a line was read.
    EndOfInput,
    /// The line could not be read.
    Unreadable,
    /// The line has this many bytes and not `SHARE_LINE_LEN`.
    WrongLength(usize),
    /// The line is not hexadecimal text.
    InvalidHex,
    /// The text does not decode to the bytes of a share.
    InvalidShare,
    /// The commitments do not accept the share.
    Unverified,
}

/// What a line gives: a share that the commitments accept, or the reason
/// why not. The line must have exactly `SHARE_LINE_LEN` bytes; its white
/// space is dropped; the rest must be hexadecimal text for exactly
/// `SHARE_LEN` bytes; and the commitments must accept those bytes.
pub open spec fn entry_outcome(line: Seq<char>, verifier: Verifier) -> Result<Seq<u8>, Hint> {
    let count = encode_utf8(line).len();
    let text = without_whitespace(line);
    if count == 0 {
        Err(Hint::EndOfInput)
    } else if count != SHARE_LINE_LEN {
        Err(Hint::WrongLength(count as usize))
    } else if !is_hex_text(text) {
        Err(Hint::InvalidHex)
    } else if hex_bytes(text).len() != SHARE_LEN {
        Err(Hint::InvalidShare)
    } else if !verifier.accepts(hex_bytes(text)) {
        Err(Hint::Unverified)
    } else {
        Ok(hex_bytes(text))
    }
}

/// The view of a result that holds a share or a hint.
pub open spec fn entry_view(r: Result<Share, Hint>) -> Result<Seq<u8>, Hint> {
    match r {
        Ok(s) => Ok(s@),
        Err(h) => Err(h),
    }
}

/// Reads a line that a custodian typed in. Only a share that the
/// commitments accept is returned; every other line gives the reason to
/// ask again.
pub fn read_entry(line: &str, verifier: &Verifier) -> (r: Result<Share, Hint>)
    ensures
        entry_view(r) == entry_outcome(line@, *verifier),
{
    let count: usize = line.as_bytes().len();
    if count == 0 {
        return Err(Hint::EndOfInput);
    }
    if count != SHARE_LINE_LEN {
        return Err(Hint::WrongLength(count));
    }
    let text: String = strip_whitespace(line);
    let share: Share = match Share::from_hex(text.as_str()) {
        Ok(s) => s,
        Err(ShareFormatError::InvalidHex) => {
            return Err(Hint::InvalidHex);
        },
        Err(ShareFormatError::InvalidLength) => {
            return Err(Hint::InvalidShare);
        },
    };
    if !verifier.verify(&share) {
        return Err(Hint::Unverified);
    }
    Ok(share)
}

/// What the driver hands to the getter.
#[derive(Debug, PartialEq, Eq)]
pub enum ShareInput {
    /// The next share is wanted.
    Next,
    /// A line was read from the keyboard; an empty line stands for the end
    /// of the input.
    Line(String),
    /// No line could be read from the keyboard.
    LineFailed,
    /// The names of the image files found, in the order of the search.
    Listing(Vec<String>),
    /// The bytes read from the disc or from the image file.
    Medium(Vec<u8>),
    /// The disc is absent, or the disc or the image file cannot be read.
    MediumFailed,
}

/// What the driver hands to the getter, as plain sequences.
pub enum ShareInputView {
    /// The next share is wanted.
    Next,
    /// A line was read from the keyboard.
    Line(Seq<char>),
    /// No line could be read from the keyboard.
    LineFailed,
    /// The names of the image files found.
    Listing(Seq<Seq<char>>),
    /// The bytes read from the medium.
    Medium(Seq<u8>),
    /// The medium cannot be read.
    MediumFailed,
}

impl View for ShareInput {
    type V = ShareInputView;

    open spec fn view(&self) -> ShareInputView {
        match self {
            ShareInput::Next => ShareInputView::Next,
            ShareInput::Line(text) => ShareInputView::Line(text@),
            ShareInput::LineFailed => ShareInputView::LineFailed,
            ShareInput::Listing(names) => ShareInputView::Listing(texts_of(names@)),
            ShareInput::Medium(bytes) => ShareInputView::Medium(bytes@),
            ShareInput::MediumFailed => ShareInputView::MediumFailed,
        }
    }
}

/// Why a medium gave no share.
#[derive(Clone, Copy, Debug, PartialEq, Eq, Structural)]
pub enum AcquireError {
    /// The medium is absent or cannot be read.
    MediumUnreadable,
    /// What the medium holds has not the length of a share.
    InvalidShare,
}

/// What the getter answers.
#[derive(Debug, PartialEq, Eq)]
pub enum ShareOutput {
    /// Ask the custodian for a line, after telling why if there is a reason.
    Prompt(Hint),
    /// Search for the image files that match this pattern.
    Scan(String),
    /// Read a share from the disc in this device, or from this image file.
    Read(String),
    /// The share that was asked for.
    Share(Share),
    /// There are no more shares.
    End,
    /// The medium gave no share.
    Failed(AcquireError),
    /// The input does not answer what the getter asked; nothing changed.
    Rejected,
}

/// What the getter answers, as plain sequences.
pub enum ShareOutputView {
    /// Ask the custodian for a line.
    Prompt(Hint),
    /// Search for the image files that match this pattern.
    Scan(Seq<char>),
    /// Read a share from this device or file.
    Read(Seq<char>),
    /// The share that was asked for.
    Share(Seq<u8>),
    /// There are no more shares.
    End,
    /// The medium gave no share.
    Failed(AcquireError),
    /// The input does not answer what the getter asked.
    Rejected,
}

impl View for ShareOutput {
    type V = ShareOutputView;

    open spec fn view(&self) -> ShareOutputView {
        match self {
            ShareOutput::Prompt(hint) => ShareOutputView::Prompt(*hint),
            ShareOutput::Scan(pattern) => ShareOutputView::Scan(pattern@),
            ShareOutput::Read(path) => ShareOutputView::Read(path@),
            ShareOutput::Share(share) => ShareOutputView::Share(share@),
            ShareOutput::End => ShareOutputView::End,
            ShareOutput::Failed(e) => ShareOutputView::Failed(*e),
            ShareOutput::Rejected => ShareOutputView::Rejected,
        }
    }
}

/// What the getter waits for.
#[derive(Clone, Copy, Debug, PartialEq, Eq, Structural)]
pub enum Awaiting {
    /// A request for the next share.
    Request,
    /// A line from the keyboard.
    Line,
    /// The names of the image files.
    Listing,
    /// The bytes of a medium.
    Medium,
}

/// Gets shares one at a time from the medium it was made for.
#[derive(Debug, PartialEq, Eq)]
pub struct ShareGetter {
    share_method: ShareMethod,
    share_device: Option<String>,
    share_globs: Option<Vec<String>>,
    cursor: usize,
    awaiting: Awaiting,
    verifier: Verifier,
}

/// The state of a getter, as plain sequences.
pub struct GetterView {
    /// The medium.
    pub method: ShareMethod,
    /// The device of the disc or the directory of the image files.
    pub device: Option<Seq<char>>,
    /// The names of the image files, once they were searched for.
    pub listing: Option<Seq<Seq<char>>>,
    /// How many of those files were handed out for reading.
    pub cursor: nat,
    /// What the getter waits for.
    pub awaiting: Awaiting,
    /// The commitments that a typed share is checked against.
    pub verifier: Verifier,
}

/// The pattern that finds the image files in a directory.
pub open spec fn image_pattern(dir: Seq<char>) -> Seq<char> {
    joined(dir, SHARE_IMAGE_PATTERN@)
}

/// The next image file is handed out for reading, or the files are at an
/// end. A search that found nothing is forgotten, so that the next request
/// searches again; a search that found files stays at its end.
pub open spec fn advance_cursor(state: GetterView) -> (GetterView, ShareOutputView) {
    let names = state.listing.unwrap();
    if state.cursor < names.len() {
        (
            GetterView { cursor: state.cursor + 1, awaiting: Awaiting::Medium, ..state },
            ShareOutputView::Read(names[state.cursor as int]),
        )
    } else if names.len() == 0 {
        (
            GetterView { listing: None, cursor: 0, awaiting: Awaiting::Request, ..state },
            ShareOutputView::End,
        )
    } else {
        (GetterView { awaiting: Awaiting::Request, ..state }, ShareOutputView::End)
    }
}

/// The state and the answer that follow an input.
pub open spec fn acquire_next(state: GetterView, input: ShareInputView) -> (
    GetterView,
    ShareOutputView,
) {
    match (state.awaiting, input) {
        (Awaiting::Request, ShareInputView::Next) => match state.method {
            ShareMethod::Stdin => (
                GetterView { awaiting: Awaiting::Line, ..state },
                ShareOutputView::Prompt(Hint::Enter),
            ),
            ShareMethod::Cdrom => (
                GetterView { awaiting: Awaiting::Medium, ..state },
                ShareOutputView::Read(state.device.unwrap()),
            ),
            ShareMethod::Iso => if state.listing is None {
                (
                    GetterView { awaiting: Awaiting::Listing, ..state },
                    ShareOutputView::Scan(image_pattern(state.device.unwrap())),
                )
            } else {
                advance_cursor(state)
            },
        },
        (Awaiting::Line, ShareInputView::Line(text)) => match entry_outcome(
            text,
            state.verifier,
        ) {
            Ok(share) => (
                GetterView { awaiting: Awaiting::Request, ..state },
                ShareOutputView::Share(share),
            ),
            Err(hint) => (state, ShareOutputView::Prompt(hint)),
        },
        (Awaiting::Line, ShareInputView::LineFailed) => (
            state,
            ShareOutputView::Prompt(Hint::Unreadable),
        ),
        (Awaiting::Listing, ShareInputView::Listing(names)) => advance_cursor(
            GetterView { listing: Some(names), cursor: 0, ..state },
        ),
        (Awaiting::Medium, ShareInputView::Medium(bytes)) => (
            GetterView { awaiting: Awaiting::Request, ..state },
            if bytes.len() == SHARE_LEN {
                ShareOutputView::Share(bytes)
            } else {
                ShareOutputView::Failed(AcquireError::InvalidShare)
            },
        ),
        (Awaiting::Medium, ShareInputView::MediumFailed) => (
            GetterView { awaiting: Awaiting::Request, ..state },
            ShareOutputView::Failed(AcquireError::MediumUnreadable),
        ),
        _ => (state, ShareOutputView::Rejected),
    }
}

/// The device or directory that a getter reads from: the one named, or
/// the usual drive for discs, or the current directory for image files;
/// none for the keyboard.
pub open spec fn device_for(
    method: ShareMethod,
    named: Option<Seq<char>>,
    current_dir: Seq<char>,
) -> Option<Seq<char>> {
    match method {
        ShareMethod::Cdrom => Some(
            match named {
                Some(d) => d,
                None => DEFAULT_CDR_DEV@,
            },
        ),
        ShareMethod::Iso => Some(
            match named {
                Some(d) => d,
                None => current_dir,
            },
        ),
        ShareMethod::Stdin => None,
    }
}

/// The view of a text that may be absent.
pub open spec fn opt_text(t: Option<String>) -> Option<Seq<char>> {
    match t {
        Some(s) => Some(s@),
        None => None,
    }
}

/// The view of a borrowed text that may be absent.
pub open spec fn opt_str(t: Option<&str>) -> Option<Seq<char>> {
    match t {
        Some(s) => Some(s@),
        None => None,
    }
}

/// The view of a list of names that may be absent.
pub open spec fn opt_names(t: Option<Vec<String>>) -> Option<Seq<Seq<char>>> {
    match t {
        Some(names) => Some(texts_of(names@)),
        None => None,
    }
}

/// A state that a getter can be in: the keyboard has no device and every
/// other medium has one; the cursor lies within the listing; and what is
/// awaited fits the medium.
pub open spec fn getter_valid(state: GetterView) -> bool {
    &&& state.method is Stdin <==> state.device is None
    &&& state.listing matches Some(names) ==> state.cursor <= names.len()
    &&& state.listing is None ==> state.cursor == 0
    &&& state.awaiting is Line ==> state.method is Stdin
    &&& state.awaiting is Listing ==> state.method is Iso
    &&& state.awaiting is Medium ==> !(state.method is Stdin)
}

impl View for ShareGetter {
    type V = GetterView;

    closed spec fn view(&self) -> GetterView {
        GetterView {
            method: self.share_method,
            device: opt_text(self.share_device),
            listing: opt_names(self.share_globs),
            cursor: self.cursor as nat,
            awaiting: self.awaiting,
            verifier: self.verifier,
        }
    }
}

impl ShareGetter {
    #[verifier::type_invariant]
    spec fn well_formed(self) -> bool {
        getter_valid(self@)
    }

    /// A getter for a medium, with the commitments to check typed shares
    /// against. Nothing has been searched or read yet.
    pub fn new(
        share_method: ShareMethod,
        share_device: Option<&str>,
        current_dir: &str,
        verifier: Verifier,
    ) -> (r: ShareGetter)
        ensures
            r@ == (GetterView {
                method: share_method,
                device: device_for(share_method, opt_str(share_device), current_dir@),
                listing: None,
                cursor: 0,
                awaiting: Awaiting::Request,
                verifier: verifier,
            }),
            getter_valid(r@),
    {
        let device: Option<String> = match share_method {
            ShareMethod::Cdrom => Some(
                match share_device {
                    Some(d) => String::from_str(d),
                    None => String::from_str(DEFAULT_CDR_DEV),
                },
            ),
            ShareMethod::Iso => Some(
                match share_device {
                    Some(d) => String::from_str(d),
                    None => String::from_str(current_dir),
                },
            ),
            ShareMethod::Stdin => None,
        };
        ShareGetter {
            share_method,
            share_device: device,
            share_globs: None,
            cursor: 0,
            awaiting: Awaiting::Request,
            verifier,
        }
    }

    /// Hands out the next image file for reading, or ends.
    fn advance(&mut self) -> (out: ShareOutput)
        requires
            old(self).share_method is Iso,
            old(self).share_globs is Some,
        ensures
            (final(self)@, out@) == advance_cursor(old(self)@),
    {
        proof {
            use_type_invariant(&*self);
        }
        let (len, next): (usize, Option<String>) = match &self.share_globs {
            Some(names) => if self.cursor < names.len() {
                (names.len(), Some(names[self.cursor].clone()))
            } else {
                (names.len(), None)
            },
            None => (0, None),
        };
        match next {
            Some(name) => {
                self.cursor = self.cursor + 1;
                self.awaiting = Awaiting::Medium;
                ShareOutput::Read(name)
            },
            None => {
                if len == 0 {
                    self.share_globs = None;
                    self.cursor = 0;
                }
                self.awaiting = Awaiting::Request;
                ShareOutput::End
            },
        }
    }

    /// Takes what the driver reports and answers with the share, or with
    /// what to do to get it.
    pub fn get_share(&mut self, input: ShareInput) -> (out: ShareOutput)
        ensures
            (final(self)@, out@) == acquire_next(old(self)@, input@),
            getter_valid(old(self)@),
            getter_valid(final(self)@),
    {
        proof {
            use_type_invariant(&*self);
        }
        let out = self.step(input);
        proof {
            use_type_invariant(&*self);
        }
        out
    }

    /// The work of `get_share`.
    fn step(&mut self, input: ShareInput) -> (out: ShareOutput)
        ensures
            (final(self)@, out@) == acquire_next(old(self)@, input@),
    {
        proof {
            use_type_invariant(&*self);
        }
        match (self.awaiting, input) {
            (Awaiting::Request, ShareInput::Next) => match self.share_method {
                ShareMethod::Stdin => {
                    self.awaiting = Awaiting::Line;
                    ShareOutput::Prompt(Hint::Enter)
                },
                ShareMethod::Cdrom => {
                    let device: String = match &self.share_device {
                        Some(d) => d.clone(),
                        None => String::new(),
                    };
                    self.awaiting = Awaiting::Medium;
                    ShareOutput::Read(device)
                },
                ShareMethod::Iso => {
                    if self.share_globs.is_none() {
                        let pattern: String = match &self.share_device {
                            Some(d) => join_path(d.as_str(), SHARE_IMAGE_PATTERN),
                            None => String::new(),
                        };
                        self.awaiting = Awaiting::Listing;
                        ShareOutput::Scan(pattern)
                    } else {
                        self.advance()
                    }
                },
            },
            (Awaiting::Line, ShareInput::Line(text)) => {
                match read_entry(text.as_str(), &self.verifier) {
                    Ok(share) => {
                        self.awaiting = Awaiting::Request;
                        ShareOutput::Share(share)
                    },
                    Err(hint) => ShareOutput::Prompt(hint),
                }
            },
            (Awaiting::Line, ShareInput::LineFailed) => ShareOutput::Prompt(Hint::Unreadable),
            (Awaiting::Listing, ShareInput::Listing(names)) => {
                self.cursor = 0;
                self.share_globs = Some(names);
                self.advance()
            },
            (Awaiting::Medium, ShareInput::Medium(bytes)) => {
                self.awaiting = Awaiting::Request;
                match Share::try_from_bytes(bytes.as_slice()) {
                    Ok(share) => ShareOutput::Share(share),
                    Err(_) => ShareOutput::Failed(AcquireError::InvalidShare),
                }
            },
            (Awaiting::Medium, ShareInput::MediumFailed) => {
                self.awaiting = Awaiting::Request;
                ShareOutput::Failed(AcquireError::MediumUnreadable)
            },
            (_, _) => ShareOutput::Rejected,
        }
    }

    /// The medium that the getter reads.
    pub fn method(&self) -> (r: ShareMethod)
        ensures
            r == self@.method,
    {
        self.share_method
    }
}

/// The getter keeps its states valid.
pub proof fn acquisition_stays_valid(state: GetterView, input: ShareInputView)
    requires
        getter_valid(state),
    ensures
        getter_valid(acquire_next(state, input).0),
{
}

/// The keyboard never runs out of shares and never fails: whatever is
/// typed, the getter asks again until it can give a share, and the share
/// it gives is one that the commitments accept.
pub proof fn keyboard_gives_only_verified_shares(state: GetterView, input: ShareInputView)
    requires
        getter_valid(state),
        state.method is Stdin,
    ensures
        ({
            let out = acquire_next(state, input).1;
            &&& out is Prompt || out is Share || out is Rejected
            &&& out matches ShareOutputView::Share(share) ==> state.verifier.accepts(share)
                && share.len() == SHARE_LEN
        }),
{
}

/// Image files are handed out in the order in which they were found, one
/// for each request.
pub proof fn images_in_order(state: GetterView, k: int)
    requires
        getter_valid(state),
        state.method is Iso,
        state.awaiting is Request,
        state.listing matches Some(names) && 0 <= k < names.len() && state.cursor == k,
    ensures
        acquire_next(state, ShareInputView::Next) == (
            GetterView { cursor: (k + 1) as nat, awaiting: Awaiting::Medium, ..state },
            ShareOutputView::Read(state.listing.unwrap()[k]),
        ),
{
}

/// Once the image files that were found are used up, every further
/// request is answered with the end, and nothing changes.
pub proof fn exhaustion_is_final(state: GetterView)
    requires
        getter_valid(state),
        state.method is Iso,
        state.awaiting is Request,
        state.listing matches Some(names) && names.len() > 0 && state.cursor == names.len(),
    ensures
        acquire_next(state, ShareInputView::Next) == (state, ShareOutputView::End),
{
}

/// A medium gives exactly what it holds: bytes of the length of a share
/// are the share, anything else is an error, and the getter is ready for
/// the next request either way.
pub proof fn medium_gives_its_bytes(state: GetterView, bytes: Seq<u8>)
    requires
        getter_valid(state),
        state.awaiting is Medium,
    ensures
        ({
            let (after, out) = acquire_next(state, ShareInputView::Medium(bytes));
            &&& after == (GetterView { awaiting: Awaiting::Request, ..state })
            &&& bytes.len() == SHARE_LEN ==> out == ShareOutputView::Share(bytes)
            &&& bytes.len() != SHARE_LEN ==> out == ShareOutputView::Failed(
                AcquireError::InvalidShare,
            )
        }),
{
}

} // verus!
