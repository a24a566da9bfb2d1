//! The memory image that a host hands to the emulator: a list of files, each
//! with an optional load address, laid out in 64 KiB.
//!
//! The list is written `path[:load_addr],path[:load_addr],...`, the load
//! addresses as hexadecimal numbers without a prefix. A file without a load
//! address follows the file before it.

use crate::alu::{high_byte, low_byte, split_word};
use crate::machine::RESET_VECTOR;
use crate::memory::MAX_MEMORY_SIZE;
use vstd::prelude::*;

verus! {

/// Why a memory image cannot be built.
#[derive(Debug, Clone, Copy, PartialEq, Eq, Structural)]
pub enum ImageError {
    /// A load address is not a hexadecimal number of 16 bits.
    BadLoadAddress,
    /// A load address lies below the end of what is loaded already.
    AddressesMustIncrease,
    /// The files do not fit the memory; the number is what they come to.
    TooLarge(usize),
}

/// The value of a hexadecimal digit, in either case.
pub open spec fn hex_digit(c: u8) -> Option<int> {
    if 0x30 <= c <= 0x39 {
        Some(c - 0x30)
    } else if 0x41 <= c <= 0x46 {
        Some(c - 0x41 + 10)
    } else if 0x61 <= c <= 0x66 {
        Some(c - 0x61 + 10)
    } else {
        None
    }
}

/// Whether all bytes are hexadecimal digits.
pub open spec fn all_hex(digits: Seq<u8>) -> bool {
    forall|i: int| 0 <= i < digits.len() ==> hex_digit(#[trigger] digits[i]) is Some
}

/// The number that hexadecimal digits stand for, most significant first.
pub open spec fn hex_value(digits: Seq<u8>) -> int
    decreases digits.len(),
{
    if digits.len() == 0 {
        0
    } else {
        16 * hex_value(digits.drop_last()) + match hex_digit(digits.last()) {
            Some(d) => d,
            None => 0,
        }
    }
}

/// The digits of a number: the text without the plus sign that may lead it.
pub open spec fn unsigned_part(text: Seq<u8>) -> Seq<u8> {
    if text.len() > 0 && text[0] == 0x2b {
        text.subrange(1, text.len() as int)
    } else {
        text
    }
}

/// The load address that a text stands for: an optional plus sign and then
/// one or more hexadecimal digits that come to less than 2^16.
pub open spec fn load_address(text: Seq<u8>) -> Option<u16> {
    let digits = unsigned_part(text);
    if digits.len() > 0 && all_hex(digits) && hex_value(digits) < 0x1_0000 {
        Some(hex_value(digits) as u16)
    } else {
        None
    }
}

fn hex_digit_value(c: u8) -> (d: Option<u8>)
    ensures
        match d {
            Some(d) => hex_digit(c) == Some(d as int) && d < 16,
            None => hex_digit(c) is None,
        },
{
    if 0x30 <= c && c <= 0x39 {
        Some(c - 0x30)
    } else if 0x41 <= c && c <= 0x46 {
        Some(c - 0x41 + 10)
    } else if 0x61 <= c && c <= 0x66 {
        Some(c - 0x61 + 10)
    } else {
        None
    }
}

/// A number only grows when digits are added to it.
proof fn lemma_hex_value_grows(digits: Seq<u8>, n: int)
    requires
        0 <= n <= digits.len(),
    ensures
        0 <= hex_value(digits.subrange(0, n)) <= hex_value(digits),
    decreases digits.len() - n,
{
    if n == digits.len() {
        assert(digits.subrange(0, n) =~= digits);
        lemma_hex_value_nonnegative(digits);
    } else {
        lemma_hex_value_grows(digits, n + 1);
        let longer = digits.subrange(0, n + 1);
        assert(longer.drop_last() =~= digits.subrange(0, n));
        lemma_hex_value_nonnegative(digits.subrange(0, n));
    }
}

proof fn lemma_hex_value_nonnegative(digits: Seq<u8>)
    ensures
        0 <= hex_value(digits),
    decreases digits.len(),
{
    if digits.len() > 0 {
        lemma_hex_value_nonnegative(digits.drop_last());
    }
}

/// Reads a load address.
pub fn parse_load_address(text: &[u8]) -> (addr: Option<u16>)
    ensures
        addr == load_address(text@),
{
    let start: usize = if text.len() > 0 && text[0] == 0x2b { 1 } else { 0 };
    let ghost digits = unsigned_part(text@);
    assert(digits =~= text@.subrange(start as int, text.len() as int));
    if start == text.len() {
        return None;
    }
    let mut value: u32 = 0;
    let mut i: usize = start;
    while i < text.len()
        invariant
            start <= i <= text.len(),
            digits == unsigned_part(text@),
            digits == text@.subrange(start as int, text.len() as int),
            all_hex(digits.subrange(0, i - start)),
            value == hex_value(digits.subrange(0, i - start)),
            value < 0x1_0000,
        decreases text.len() - i,
    {
        let ghost before = digits.subrange(0, i - start);
        let ghost after = digits.subrange(0, i - start + 1);
        proof {
            assert(after.drop_last() =~= before);
            assert(after.last() == text@[i as int]);
            lemma_hex_value_grows(digits, i - start + 1);
        }
        match hex_digit_value(text[i]) {
            None => {
                assert(!all_hex(digits)) by {
                    assert(hex_digit(digits[i - start]) is None);
                }
                return None;
            },
            Some(d) => {
                let next: u32 = value * 16 + d as u32;
                if next >= 0x1_0000 {
                    return None;
                }
                value = next;
                assert(all_hex(after)) by {
                    assert forall|j: int| 0 <= j < after.len() implies hex_digit(
                        #[trigger] after[j],
                    ) is Some by {
                        if j < before.len() {
                            assert(after[j] == before[j]);
                        }
                    }
                }
            },
        }
        i += 1;
    }
    assert(digits.subrange(0, i - start) =~= digits);
    Some(value as u16)
}

/// The position of the first `separator` at or behind `from`, and the length
/// of the text where there is none.
pub open spec fn next_separator(text: Seq<u8>, from: int, separator: u8) -> int
    decreases text.len() - from,
{
    if from >= text.len() {
        text.len() as int
    } else if text[from] == separator {
        from
    } else {
        next_separator(text, from + 1, separator)
    }
}

/// The separator that is found is the first one.
pub proof fn lemma_next_separator(text: Seq<u8>, from: int, separator: u8)
    requires
        0 <= from <= text.len(),
    ensures
        from <= next_separator(text, from, separator) <= text.len(),
        forall|i: int|
            from <= i < next_separator(text, from, separator) ==> text[i] != separator,
        next_separator(text, from, separator) < text.len() ==> text[next_separator(
            text,
            from,
            separator,
        )] == separator,
    decreases text.len() - from,
{
    if from < text.len() && text[from] != separator {
        lemma_next_separator(text, from + 1, separator);
    }
}

/// Finds the end of the piece of `text` that starts at `from` and ends
/// before the next `separator`, or at `limit`.
fn piece_end(text: &[u8], from: usize, limit: usize, separator: u8) -> (end: usize)
    requires
        from <= limit <= text.len(),
    ensures
        from <= end <= limit,
        end == if next_separator(text@, from as int, separator) < limit {
            next_separator(text@, from as int, separator)
        } else {
            limit as int
        },
{
    let mut end: usize = from;
    while end < limit && text[end] != separator
        invariant
            from <= end <= limit <= text.len(),
            next_separator(text@, from as int, separator) == next_separator(
                text@,
                end as int,
                separator,
            ),
        decreases limit - end,
    {
        end += 1;
    }
    proof {
        lemma_next_separator(text@, end as int, separator);
    }
    end
}

/// A range of bytes of the list, the end not included.
#[derive(Debug, Clone, Copy, PartialEq, Eq, Structural)]
pub struct Span {
    pub start: usize,
    pub end: usize,
}

/// One entry of the list of files: where in the list its path stands, and
/// where its load address, if it has one.
#[derive(Debug, Clone, Copy, PartialEq, Eq)]
pub struct MemFile {
    pub path: Span,
    pub load_addr: Option<Span>,
}

/// The entry that starts at `start` in the list: it ends before the next
/// comma. Its path ends before the first colon, and its load address, if a
/// colon is there, before the second; what follows a second colon is not
/// read.
pub open spec fn entry_at(list: Seq<u8>, start: int) -> MemFile {
    let end = next_separator(list, start, 0x2c);
    let colon = next_separator(list, start, 0x3a);
    if colon < end {
        let second = next_separator(list, colon + 1, 0x3a);
        MemFile {
            path: Span { start: start as usize, end: colon as usize },
            load_addr: Some(
                Span {
                    start: (colon + 1) as usize,
                    end: if second < end {
                        second as usize
                    } else {
                        end as usize
                    },
                },
            ),
        }
    } else {
        MemFile { path: Span { start: start as usize, end: end as usize }, load_addr: None }
    }
}

/// The entries of the list from `start` on: one for each piece between
/// commas, the empty ones too.
pub open spec fn entries_from(list: Seq<u8>, start: int) -> Seq<MemFile>
    decreases list.len() - start,
    when 0 <= start <= list.len()
    via entries_from_decreases
{
    let end = next_separator(list, start, 0x2c);
    if end >= list.len() {
        seq![entry_at(list, start)]
    } else {
        seq![entry_at(list, start)] + entries_from(list, end + 1)
    }
}

#[via_fn]
proof fn entries_from_decreases(list: Seq<u8>, start: int) {
    lemma_next_separator(list, start, 0x2c);
}

/// The entries of a list of files.
pub open spec fn entries(list: Seq<u8>) -> Seq<MemFile> {
    entries_from(list, 0)
}

fn parse_entry(list: &[u8], start: usize) -> (out: (MemFile, usize))
    requires
        start <= list.len(),
    ensures
        out.0 == entry_at(list@, start as int),
        out.1 == next_separator(list@, start as int, 0x2c),
        start <= out.1 <= list.len(),
{
    let end = piece_end(list, start, list.len(), 0x2c);
    let colon = piece_end(list, start, end, 0x3a);
    proof {
        lemma_next_separator(list@, start as int, 0x2c);
        lemma_next_separator(list@, start as int, 0x3a);
    }
    if colon < end {
        let second = piece_end(list, colon + 1, end, 0x3a);
        (
            MemFile {
                path: Span { start, end: colon },
                load_addr: Some(Span { start: colon + 1, end: second }),
            },
            end,
        )
    } else {
        (MemFile { path: Span { start, end }, load_addr: None }, end)
    }
}

/// Splits the list of files into its entries.
pub fn parse_mem_file_list(list: &[u8]) -> (files: Vec<MemFile>)
    ensures
        files@ == entries(list@),
        files.len() >= 1,
{
    let mut files: Vec<MemFile> = Vec::new();
    let mut start: usize = 0;
    loop
        invariant_except_break
            start <= list.len(),
            entries(list@) == files@ + entries_from(list@, start as int),
        ensures
            files@ == entries(list@),
            files.len() >= 1,
        decreases list.len() - start,
    {
        let (file, end) = parse_entry(list, start);
        proof {
            lemma_next_separator(list@, start as int, 0x2c);
            assert(files@.push(file) =~= files@ + seq![file]);
        }
        files.push(file);
        if end >= list.len() {
            assert(files@ =~= entries(list@));
            break ;
        }
        proof {
            assert(files@ + entries_from(list@, end + 1) =~= files@.drop_last() + (seq![file]
                + entries_from(list@, end + 1)));
        }
        start = end + 1;
    }
    files
}

/// So many zeros; none if the number is negative.
pub open spec fn zeros(count: int) -> Seq<u8> {
    Seq::new(
        if count > 0 {
            count as nat
        } else {
            0
        },
        |i: int| 0u8,
    )
}

/// What a chunk of bytes does to an image that is being built: zeros fill
/// the gap up to the load address, if one is given, and the chunk follows.
pub open spec fn with_chunk(image: Seq<u8>, chunk: Seq<u8>, addr: Option<u16>) -> Seq<u8> {
    match addr {
        Some(addr) => image + zeros(addr - image.len()) + chunk,
        None => image + chunk,
    }
}

/// Adds the contents of one file to the image. A load address below the end
/// of the image is refused, and the image stays as it is.
pub fn load_chunk(image: &mut Vec<u8>, chunk: &[u8], addr: Option<u16>) -> (r: Result<
    (),
    ImageError,
>)
    ensures
        match addr {
            Some(addr) if old(image)@.len() > addr => {
                &&& r == Err::<(), ImageError>(ImageError::AddressesMustIncrease)
                &&& final(image)@ == old(image)@
            },
            _ => {
                &&& r is Ok
                &&& final(image)@ == with_chunk(old(image)@, chunk@, addr)
            },
        },
{
    let ghost before = image@;
    if let Some(addr) = addr {
        if image.len() > addr as usize {
            return Err(ImageError::AddressesMustIncrease);
        }
        // Fill the gap

        while image.len() < addr as usize
            invariant
                before.len() <= image@.len() <= addr,
                image@ == before + zeros(image@.len() - before.len()),
            decreases addr - image.len(),
        {
            image.push(0);
            assert(image@ =~= before + zeros(image@.len() - before.len()));
        }
    }
    let ghost gapped = image@;
    let mut i: usize = 0;
    while i < chunk.len()
        invariant
            i <= chunk.len(),
            image@ == gapped + chunk@.subrange(0, i as int),
        decreases chunk.len() - i,
    {
        image.push(chunk[i]);
        i += 1;
        assert(image@ =~= gapped + chunk@.subrange(0, i as int));
    }
    assert(chunk@.subrange(0, i as int) =~= chunk@);
    Ok(())
}

/// Adds the contents of one file to the image, at the load address that the
/// list of files gives for it, if it gives one. A load address that is no
/// number of 16 bits is refused, and so is one below the end of the image;
/// the image then stays as it is.
pub fn load_file(image: &mut Vec<u8>, chunk: &[u8], addr_text: Option<&[u8]>) -> (r: Result<
    (),
    ImageError,
>)
    ensures
        match addr_text {
            None => r is Ok && final(image)@ == with_chunk(old(image)@, chunk@, None),
            Some(text) => match load_address(text@) {
                None => {
                    &&& r == Err::<(), ImageError>(ImageError::BadLoadAddress)
                    &&& final(image)@ == old(image)@
                },
                Some(addr) if old(image)@.len() > addr => {
                    &&& r == Err::<(), ImageError>(ImageError::AddressesMustIncrease)
                    &&& final(image)@ == old(image)@
                },
                Some(addr) => {
                    &&& r is Ok
                    &&& final(image)@ == with_chunk(old(image)@, chunk@, Some(addr))
                },
            },
        },
{
    match addr_text {
        None => load_chunk(image, chunk, None),
        Some(text) => match parse_load_address(text) {
            None => Err(ImageError::BadLoadAddress),
            Some(addr) => load_chunk(image, chunk, Some(addr)),
        },
    }
}

/// The image as the emulator takes it: filled with zeros up to 64 KiB, and
/// with the reset vector pointing at `reset_pc`.
pub open spec fn finished(image: Seq<u8>, reset_pc: u16) -> Seq<u8> {
    (image + zeros(MAX_MEMORY_SIZE - image.len())).update(
        RESET_VECTOR as int,
        low_byte(reset_pc),
    ).update(RESET_VECTOR + 1, high_byte(reset_pc))
}

/// Completes the image. One that is larger than the memory is refused.
pub fn finish_image(image: Vec<u8>, reset_pc: u16) -> (r: Result<Vec<u8>, ImageError>)
    ensures
        match r {
            Ok(memory) => {
                &&& image@.len() <= MAX_MEMORY_SIZE
                &&& memory@ == finished(image@, reset_pc)
                &&& memory@.len() == MAX_MEMORY_SIZE
            },
            Err(e) => {
                &&& image@.len() > MAX_MEMORY_SIZE
                &&& e == ImageError::TooLarge(image.len())
            },
        },
{
    let mut memory = image;
    let ghost before = memory@;
    if memory.len() > MAX_MEMORY_SIZE {
        return Err(ImageError::TooLarge(memory.len()));
    }
    // Fill the gap

    while memory.len() < MAX_MEMORY_SIZE
        invariant
            before.len() <= memory@.len() <= MAX_MEMORY_SIZE,
            memory@ == before + zeros(memory@.len() - before.len()),
        decreases MAX_MEMORY_SIZE - memory.len(),
    {
        memory.push(0);
        assert(memory@ =~= before + zeros(memory@.len() - before.len()));
    }
    let (lo, hi) = split_word(reset_pc);
    memory[RESET_VECTOR as usize] = lo;
    memory[RESET_VECTOR as usize + 1] = hi;
    Ok(memory)
}

} // verus!
