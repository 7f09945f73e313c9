use acemcp::blob::Blob;
use acemcp::chunking::split_content;

fn numbered_lines(count: usize) -> String {
    let mut text = String::new();
    for i in 0..count {
        text.push_str(&format!("line {}\n", i));
    }
    text
}

fn joined_contents(blobs: &Vec<Blob>) -> String {
    let mut text = String::new();
    for blob in blobs {
        text.push_str(&blob.content);
    }
    text
}

#[test]
fn small_file_is_one_blob_with_its_own_path() {
    let blobs = split_content("src/main.rs", "fn main() {}\n", 800);
    assert_eq!(blobs.len(), 1);
    assert_eq!(blobs[0].path, "src/main.rs");
    assert_eq!(blobs[0].content, "fn main() {}\n");
}

#[test]
fn empty_file_is_one_empty_blob() {
    let blobs = split_content("empty.txt", "", 800);
    assert_eq!(blobs.len(), 1);
    assert_eq!(blobs[0].path, "empty.txt");
    assert_eq!(blobs[0].content, "");
}

#[test]
fn empty_file_needs_no_positive_maximum() {
    let blobs = split_content("empty.txt", "", 0);
    assert_eq!(blobs.len(), 1);
    assert_eq!(blobs[0].content, "");
}

#[test]
fn file_with_exactly_the_maximum_of_lines_is_not_chunked() {
    let content = numbered_lines(5);
    let blobs = split_content("a.py", &content, 5);
    assert_eq!(blobs.len(), 1);
    assert_eq!(blobs[0].path, "a.py");
    assert_eq!(blobs[0].content, content);
}

#[test]
fn one_line_more_than_the_maximum_gives_two_chunks() {
    let content = numbered_lines(6);
    let blobs = split_content("a.py", &content, 5);
    assert_eq!(blobs.len(), 2);
    assert_eq!(blobs[0].path, "a.py#chunk1of2");
    assert_eq!(blobs[0].content, "line 0\nline 1\nline 2\nline 3\nline 4\n");
    assert_eq!(blobs[1].path, "a.py#chunk2of2");
    assert_eq!(blobs[1].content, "line 5\n");
}

#[test]
fn last_line_without_newline_counts_as_a_line() {
    let blobs = split_content("a.txt", "one\ntwo\nthree", 2);
    assert_eq!(blobs.len(), 2);
    assert_eq!(blobs[0].content, "one\ntwo\n");
    assert_eq!(blobs[1].content, "three");
}

#[test]
fn trailing_newline_opens_no_further_line() {
    let blobs = split_content("a.txt", "one\ntwo\n", 2);
    assert_eq!(blobs.len(), 1);
    assert_eq!(blobs[0].path, "a.txt");
}

#[test]
fn empty_lines_are_lines() {
    let blobs = split_content("a.txt", "\n\n\n", 1);
    assert_eq!(blobs.len(), 3);
    assert_eq!(blobs[0].path, "a.txt#chunk1of3");
    assert_eq!(blobs[1].path, "a.txt#chunk2of3");
    assert_eq!(blobs[2].path, "a.txt#chunk3of3");
    for blob in &blobs {
        assert_eq!(blob.content, "\n");
    }
}

#[test]
fn chunk_count_rounds_up() {
    let content = numbered_lines(2500);
    let blobs = split_content("big.rs", &content, 800);
    assert_eq!(blobs.len(), 4);
    assert_eq!(blobs[0].path, "big.rs#chunk1of4");
    assert_eq!(blobs[3].path, "big.rs#chunk4of4");
    assert_eq!(blobs[0].content.lines().count(), 800);
    assert_eq!(blobs[1].content.lines().count(), 800);
    assert_eq!(blobs[2].content.lines().count(), 800);
    assert_eq!(blobs[3].content.lines().count(), 100);
    assert!(blobs[3].content.starts_with("line 2400\n"));
}

#[test]
fn chunk_numbers_are_written_in_decimal() {
    let content = numbered_lines(23);
    let blobs = split_content("f", &content, 2);
    assert_eq!(blobs.len(), 12);
    assert_eq!(blobs[8].path, "f#chunk9of12");
    assert_eq!(blobs[9].path, "f#chunk10of12");
    assert_eq!(blobs[11].path, "f#chunk12of12");
    assert_eq!(blobs[11].content, "line 22\n");
}

#[test]
fn chunks_joined_in_order_give_back_the_content() {
    let samples = vec![
        String::from(""),
        String::from("a"),
        String::from("a\n"),
        String::from("a\nb"),
        String::from("\n"),
        String::from("\n\nx\n\n"),
        String::from("first\r\nsecond\r\nthird\r\n"),
        String::from("键\n值\n中文内容没有结尾换行"),
        numbered_lines(17),
    ];
    for content in &samples {
        for max_lines in 1..6 {
            let blobs = split_content("p", content, max_lines);
            assert_eq!(&joined_contents(&blobs), content);
        }
    }
}

#[test]
fn every_chunk_but_the_last_holds_the_maximum_of_lines() {
    let content = numbered_lines(10);
    let blobs = split_content("p", &content, 3);
    assert_eq!(blobs.len(), 4);
    assert_eq!(blobs[0].content, "line 0\nline 1\nline 2\n");
    assert_eq!(blobs[1].content, "line 3\nline 4\nline 5\n");
    assert_eq!(blobs[2].content, "line 6\nline 7\nline 8\n");
    assert_eq!(blobs[3].content, "line 9\n");
}

#[test]
fn chunks_are_the_same_as_splitting_by_hand() {
    let content = "α\nβ\nγ\nδ\nε";
    let lines: Vec<&str> = content.split_inclusive('\n').collect();
    let blobs = split_content("greek.txt", content, 2);
    assert_eq!(blobs.len(), 3);
    assert_eq!(blobs[0].content, lines[0..2].join(""));
    assert_eq!(blobs[1].content, lines[2..4].join(""));
    assert_eq!(blobs[2].content, lines[4..5].join(""));
}
