use nonar::chatmix::listing::{
    leading_number_standing, lex_below, line_name, line_ranks_below, resolve_output, Standing,
};

fn resolved(listing: &[u8], name: &[u8]) -> Option<Vec<u8>> {
    resolve_output(listing, name)
}

#[test]
fn highest_sort_key_wins() {
    assert_eq!(resolved(b"07:xyz\n12:abc\n", b":"), Some(b"12:abc".to_vec()));
    assert_eq!(resolved(b"12:abc\n07:xyz\n", b":"), Some(b"12:abc".to_vec()));
}

#[test]
fn newest_of_two_headset_outputs_is_taken() {
    let listing = b"57\talsa_output.usb-SteelSeries_Arctis_Nova_7-00.analog-stereo\tPipeWire\ts16le 2ch 48000Hz\tSUSPENDED\n\
58\talsa_output.pci-0000_00_1f.3.analog-stereo\tPipeWire\ts32le 2ch 48000Hz\tRUNNING\n\
103\talsa_output.usb-SteelSeries_Arctis_Nova_7-01.analog-stereo\tPipeWire\ts16le 2ch 48000Hz\tIDLE\n";
    assert_eq!(
        resolved(listing, b"SteelSeries_Arctis_Nova_7"),
        Some(b"alsa_output.usb-SteelSeries_Arctis_Nova_7-01.analog-stereo".to_vec())
    );
}

#[test]
fn numbers_are_compared_as_numbers() {
    assert_eq!(resolved(b"9\tnine x\n12\ttwelve x\n", b"x"), Some(b"twelve x".to_vec()));
    assert_eq!(resolved(b"12\ttwelve x\n9\tnine x\n", b"x"), Some(b"twelve x".to_vec()));
    assert_eq!(resolved(b"0099\ta x\n100\tb x\n", b"x"), Some(b"b x".to_vec()));
}

#[test]
fn numbers_of_any_length_are_compared() {
    let listing = b"99999999999999999999999999999999\tsmall x\n100000000000000000000000000000000\tlarge x\n";
    assert_eq!(resolved(listing, b"x"), Some(b"large x".to_vec()));
}

#[test]
fn equal_numbers_are_settled_by_dictionary_order() {
    assert_eq!(resolved(b"5\talpha\n5\tbeta\n", b"a"), Some(b"beta".to_vec()));
    assert_eq!(resolved(b"5\tbeta\n5\talpha\n", b"a"), Some(b"beta".to_vec()));
    assert_eq!(resolved(b"05\tzz a\n5\taa a\n", b"a"), Some(b"aa a".to_vec()));
}

#[test]
fn lines_without_a_number_count_as_zero() {
    assert_eq!(resolved(b"x one\n1\tx two\n", b"x"), Some(b"x two".to_vec()));
    assert_eq!(resolved(b"x one\nx two\n", b"x"), Some(b"x two".to_vec()));
}

#[test]
fn only_lines_that_hold_the_name_are_looked_at() {
    assert_eq!(resolved(b"1\theadset\n2\tspeakers\n", b"headset"), Some(b"headset".to_vec()));
    assert_eq!(resolved(b"1\theadset\n2\tspeakers\n", b"microphone"), None);
    assert_eq!(resolved(b"", b"headset"), None);
    assert_eq!(resolved(b"\n\n", b"headset"), None);
}

#[test]
fn the_name_may_stand_in_any_field() {
    assert_eq!(resolved(b"1\tsink\tdriver-x\n", b"driver"), Some(b"sink".to_vec()));
}

#[test]
fn the_last_line_needs_no_newline() {
    assert_eq!(resolved(b"1\ta\n2\tb a", b"a"), Some(b"b a".to_vec()));
    assert_eq!(resolved(b"3\tonly", b"only"), Some(b"only".to_vec()));
}

#[test]
fn the_empty_name_is_held_by_every_line() {
    assert_eq!(resolved(b"1\ta\n2\tb\n", b""), Some(b"b".to_vec()));
    assert_eq!(resolved(b"1\ta\n\n", b""), Some(b"a".to_vec()));
    assert_eq!(resolved(b"\n", b""), Some(b"".to_vec()));
}

#[test]
fn name_is_the_second_field_trimmed() {
    assert_eq!(line_name(b"1\tname\trest\tmore"), b"name");
    assert_eq!(line_name(b"1\tname"), b"name");
    assert_eq!(line_name(b"1\t  name \trest"), b"name");
    assert_eq!(line_name(b"1\t\trest"), b"");
    assert_eq!(line_name(b"1\t"), b"");
    assert_eq!(line_name(b"\tname"), b"name");
}

#[test]
fn a_line_without_tab_is_its_own_name() {
    assert_eq!(line_name(b"12:abc"), b"12:abc");
    assert_eq!(line_name(b"  padded \r"), b"padded");
    assert_eq!(line_name(b""), b"");
}

#[test]
fn standing_of_leading_numbers() {
    assert_eq!(leading_number_standing(b"7", b"12"), Standing::Below);
    assert_eq!(leading_number_standing(b"12", b"7"), Standing::Above);
    assert_eq!(leading_number_standing(b"12", b"12"), Standing::Same);
    assert_eq!(leading_number_standing(b"0012\tx", b"12\ty"), Standing::Same);
    assert_eq!(leading_number_standing(b"", b"0"), Standing::Same);
    assert_eq!(leading_number_standing(b"abc", b"000"), Standing::Same);
    assert_eq!(leading_number_standing(b"abc", b"1"), Standing::Below);
    assert_eq!(leading_number_standing(b"19", b"21"), Standing::Below);
    assert_eq!(leading_number_standing(b"21", b"19"), Standing::Above);
    assert_eq!(leading_number_standing(b"129", b"131"), Standing::Below);
    assert_eq!(leading_number_standing(b"07:xyz", b"12:abc"), Standing::Below);
    assert_eq!(leading_number_standing(b"1a9", b"1b0"), Standing::Same);
}

#[test]
fn dictionary_order_of_bytes() {
    assert!(lex_below(b"", b"a"));
    assert!(!lex_below(b"", b""));
    assert!(!lex_below(b"a", b""));
    assert!(lex_below(b"a", b"ab"));
    assert!(!lex_below(b"ab", b"a"));
    assert!(lex_below(b"ab", b"b"));
    assert!(!lex_below(b"abc", b"abc"));
    assert!(lex_below(b"abc", b"abd"));
    assert!(lex_below(b"\x7f", b"\x80"));
}

#[test]
fn ranking_is_a_strict_order_on_samples() {
    let lines: [&[u8]; 7] = [b"", b"0", b"00", b"9\tx", b"12\ta", b"12\tb", b"012\ta"];
    for a in lines {
        assert!(!line_ranks_below(a, a));
        for b in lines {
            if a != b {
                assert!(line_ranks_below(a, b) != line_ranks_below(b, a));
            }
            for c in lines {
                if line_ranks_below(a, b) && line_ranks_below(b, c) {
                    assert!(line_ranks_below(a, c));
                }
            }
        }
    }
}
