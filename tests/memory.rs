use befunge::memory::{Memory, BLANK, MEM_HEIGHT, MEM_WIDTH};
use befunge::source::source_lines;

#[test]
fn get() {
    let data = source_lines("v @_       v\n>0\"!dlroW\"v \nv  :#     < \n>\" ,olleH\" v\n   ^       <");
    let mem = Memory::new(data);

    let mut output = vec![vec![' '; MEM_WIDTH]; MEM_HEIGHT];
    for (row, line) in output.iter_mut().enumerate() {
        for (col, cell) in line.iter_mut().enumerate() {
            *cell = mem.get(row, col) as char;
        }
    }
    let mut expected = vec![
        vec!['v', ' ', '@', '_', ' ', ' ', ' ', ' ', ' ', ' ', ' ', 'v'],
        vec!['>', '0', '"', '!', 'd', 'l', 'r', 'o', 'W', '"', 'v', ' '],
        vec!['v', ' ', ' ', ':', '#', ' ', ' ', ' ', ' ', ' ', '<', ' '],
        vec!['>', '"', ' ', ',', 'o', 'l', 'l', 'e', 'H', '"', ' ', 'v'],
        vec![' ', ' ', ' ', '^', ' ', ' ', ' ', ' ', ' ', ' ', ' ', '<'],
    ];
    expected.iter_mut().for_each(|line| {
        line.resize(MEM_WIDTH, ' ');
    });
    expected.resize_with(MEM_HEIGHT, || vec![' '; MEM_WIDTH]);
    assert_eq!(output, expected);
}

#[test]
fn short_lines_are_padded_with_blanks() {
    let mem = Memory::new(vec![vec![b'1', b'2'], vec![], vec![b'x']]);
    assert_eq!(mem.get(0, 0), b'1');
    assert_eq!(mem.get(0, 1), b'2');
    assert_eq!(mem.get(0, 2), BLANK);
    assert_eq!(mem.get(1, 0), BLANK);
    assert_eq!(mem.get(2, 0), b'x');
    assert_eq!(mem.get(MEM_HEIGHT - 1, MEM_WIDTH - 1), BLANK);
    assert_eq!(BLANK, b' ');
}

#[test]
fn long_lines_and_extra_rows_are_cut() {
    let mut data = vec![vec![b'a'; MEM_WIDTH + 5]; MEM_HEIGHT + 3];
    data[0][MEM_WIDTH - 1] = b'z';
    let mem = Memory::new(data);
    assert_eq!(mem.get(0, MEM_WIDTH - 1), b'z');
    assert_eq!(mem.get(MEM_HEIGHT - 1, MEM_WIDTH - 1), b'a');
}

#[test]
fn put_replaces_one_cell() {
    let mut mem = Memory::new(vec![vec![b'a', b'b']]);
    mem.put(b'q', 0, 1);
    mem.put(255, 24, 79);
    assert_eq!(mem.get(0, 0), b'a');
    assert_eq!(mem.get(0, 1), b'q');
    assert_eq!(mem.get(24, 79), 255);
    assert_eq!(mem.get(24, 78), BLANK);
}

#[test]
fn source_text_splits_into_lines() {
    assert_eq!(source_lines(""), Vec::<Vec<u8>>::new());
    assert_eq!(source_lines("ab\r\ncd\n"), vec![b"ab".to_vec(), b"cd".to_vec()]);
    assert_eq!(source_lines("a\n\nb"), vec![b"a".to_vec(), vec![], b"b".to_vec()]);
    assert_eq!(source_lines("a\n\n"), vec![b"a".to_vec(), vec![]]);
    assert_eq!(source_lines("\u{141}"), vec![vec![0x41u8]]);
}
