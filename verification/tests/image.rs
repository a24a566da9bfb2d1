use yamos6502::image::{
    finish_image, load_chunk, load_file, parse_load_address, parse_mem_file_list, ImageError,
    MemFile, Span,
};

#[test]
fn load_addresses_are_hexadecimal() {
    assert_eq!(parse_load_address(b"0"), Some(0));
    assert_eq!(parse_load_address(b"400"), Some(0x400));
    assert_eq!(parse_load_address(b"ffff"), Some(0xffff));
    assert_eq!(parse_load_address(b"FFFF"), Some(0xffff));
    assert_eq!(parse_load_address(b"aBcD"), Some(0xabcd));
    assert_eq!(parse_load_address(b"00001"), Some(1));
    assert_eq!(parse_load_address(b"+1f"), Some(0x1f));
}

#[test]
fn load_addresses_that_are_no_numbers_are_refused() {
    assert_eq!(parse_load_address(b""), None);
    assert_eq!(parse_load_address(b"+"), None);
    assert_eq!(parse_load_address(b"-1"), None);
    assert_eq!(parse_load_address(b"0x400"), None);
    assert_eq!(parse_load_address(b"g"), None);
    assert_eq!(parse_load_address(b"12 "), None);
    assert_eq!(parse_load_address(b"1_0"), None);
    assert_eq!(parse_load_address(b"10000"), None);
    assert_eq!(parse_load_address(b"fffff"), None);
    assert_eq!(parse_load_address(b"++1"), None);
}

#[test]
fn load_addresses_agree_with_the_standard_library() {
    let texts: [&str; 12] =
        ["0", "400", "ffff", "10000", "", "+", "+1f", "-1", "0x1", "00001", "zz", "AbC"];
    for text in texts {
        assert_eq!(parse_load_address(text.as_bytes()), u16::from_str_radix(text, 16).ok());
    }
}

fn file(path: (usize, usize), load_addr: Option<(usize, usize)>) -> MemFile {
    MemFile {
        path: Span { start: path.0, end: path.1 },
        load_addr: load_addr.map(|(start, end)| Span { start, end }),
    }
}

#[test]
fn list_of_files_is_split_at_commas_and_colons() {
    assert_eq!(parse_mem_file_list(b"rom.bin"), vec![file((0, 7), None)]);
    assert_eq!(parse_mem_file_list(b"rom.bin:400"), vec![file((0, 7), Some((8, 11)))]);
    assert_eq!(
        parse_mem_file_list(b"a:0,b,c:ff00"),
        vec![file((0, 1), Some((2, 3))), file((4, 5), None), file((6, 7), Some((8, 12)))]
    );
}

#[test]
fn list_of_files_keeps_empty_pieces() {
    assert_eq!(parse_mem_file_list(b""), vec![file((0, 0), None)]);
    assert_eq!(parse_mem_file_list(b","), vec![file((0, 0), None), file((1, 1), None)]);
    assert_eq!(parse_mem_file_list(b"a,"), vec![file((0, 1), None), file((2, 2), None)]);
    assert_eq!(parse_mem_file_list(b"a:"), vec![file((0, 1), Some((2, 2)))]);
    assert_eq!(parse_mem_file_list(b":10"), vec![file((0, 0), Some((1, 3)))]);
}

#[test]
fn list_of_files_reads_nothing_behind_a_second_colon() {
    assert_eq!(
        parse_mem_file_list(b"a:10:20,b"),
        vec![file((0, 1), Some((2, 4))), file((8, 9), None)]
    );
}

#[test]
fn list_of_files_splits_as_the_standard_library_does() {
    let lists: [&str; 7] =
        ["a.bin", "a:0,b,c:ff00", "", ",", "x:1:2,y", "p,:,q:", "dir/f.bin:c000"];
    for list in lists {
        let files = parse_mem_file_list(list.as_bytes());
        let pieces: Vec<&str> = list.split(',').collect();
        assert_eq!(files.len(), pieces.len());
        for (file, piece) in files.iter().zip(pieces) {
            let mut parts = piece.split(':');
            assert_eq!(Some(&list[file.path.start..file.path.end]), parts.next());
            assert_eq!(file.load_addr.map(|span| &list[span.start..span.end]), parts.next());
        }
    }
}

#[test]
fn chunks_follow_each_other_or_start_at_their_address() {
    let mut image = Vec::new();
    assert_eq!(load_chunk(&mut image, &[1, 2, 3], None), Ok(()));
    assert_eq!(image, vec![1, 2, 3]);
    assert_eq!(load_chunk(&mut image, &[4], None), Ok(()));
    assert_eq!(image, vec![1, 2, 3, 4]);
    assert_eq!(load_chunk(&mut image, &[9, 8], Some(6)), Ok(()));
    assert_eq!(image, vec![1, 2, 3, 4, 0, 0, 9, 8]);
    // Right behind what is there
    assert_eq!(load_chunk(&mut image, &[7], Some(8)), Ok(()));
    assert_eq!(image, vec![1, 2, 3, 4, 0, 0, 9, 8, 7]);
    assert_eq!(load_chunk(&mut image, &[], Some(10)), Ok(()));
    assert_eq!(image, vec![1, 2, 3, 4, 0, 0, 9, 8, 7, 0]);
}

#[test]
fn chunk_below_the_end_of_the_image_is_refused() {
    let mut image = vec![1, 2, 3];
    assert_eq!(load_chunk(&mut image, &[4], Some(2)), Err(ImageError::AddressesMustIncrease));
    assert_eq!(image, vec![1, 2, 3]);
    assert_eq!(load_chunk(&mut image, &[4], Some(0)), Err(ImageError::AddressesMustIncrease));
    assert_eq!(image, vec![1, 2, 3]);
}

#[test]
fn files_are_loaded_at_the_address_written_in_the_list() {
    let mut image = vec![1];
    assert_eq!(load_file(&mut image, &[2], None), Ok(()));
    assert_eq!(load_file(&mut image, &[3], Some(b"4")), Ok(()));
    assert_eq!(image, vec![1, 2, 0, 0, 3]);
    assert_eq!(load_file(&mut image, &[4], Some(b"4x")), Err(ImageError::BadLoadAddress));
    assert_eq!(load_file(&mut image, &[4], Some(b"")), Err(ImageError::BadLoadAddress));
    assert_eq!(load_file(&mut image, &[4], Some(b"3")), Err(ImageError::AddressesMustIncrease));
    assert_eq!(image, vec![1, 2, 0, 0, 3]);
}

#[test]
fn finished_image_fills_the_memory_and_holds_the_reset_vector() {
    let memory = finish_image(vec![0xa9, 0x01], 0x1234).unwrap();
    assert_eq!(memory.len(), 0x1_0000);
    assert_eq!(&memory[0..3], &[0xa9, 0x01, 0x00]);
    assert_eq!(memory[0xfffc], 0x34);
    assert_eq!(memory[0xfffd], 0x12);
    assert!(memory[2..0xfffc].iter().all(|b| *b == 0));
    assert_eq!(&memory[0xfffe..], &[0, 0]);

    // The reset vector replaces what a file put there
    let memory = finish_image(vec![0xee; 0x1_0000], 0x0400).unwrap();
    assert_eq!(memory.len(), 0x1_0000);
    assert_eq!(&memory[0xfffb..], &[0xee, 0x00, 0x04, 0xee, 0xee]);
}

#[test]
fn image_larger_than_the_memory_is_refused() {
    assert_eq!(finish_image(vec![0; 0x1_0001], 0x0400), Err(ImageError::TooLarge(0x1_0001)));
}
