use sp1_helper::relay::prefix_line;
use sp1_helper::relay::relay_lines;

#[test]
fn prefixes_one_line() {
    assert_eq!(prefix_line("Compiling foo v0.1.0"), "[sp1] Compiling foo v0.1.0");
    assert_eq!(prefix_line(""), "[sp1] ");
}

#[test]
fn relays_a_stream_in_order() {
    let lines = vec!["one".to_string(), "two".to_string(), "three".to_string()];
    let relayed = relay_lines(&lines);
    assert_eq!(relayed.len(), 3);
    assert_eq!(relayed[0], "[sp1] one");
    assert_eq!(relayed[1], "[sp1] two");
    assert_eq!(relayed[2], "[sp1] three");
}

#[test]
fn relays_an_empty_stream() {
    let relayed = relay_lines(&Vec::new());
    assert!(relayed.is_empty());
}

#[test]
fn high_volume_relay_drops_and_duplicates_nothing() {
    let n: usize = 5000;
    let m: usize = 5000;
    let out_src: Vec<String> = (0..n).map(|i| format!("out line {}", i)).collect();
    let err_src: Vec<String> = (0..m).map(|i| format!("err line {}", i)).collect();

    let out_dst = relay_lines(&out_src);
    let err_dst = relay_lines(&err_src);

    assert_eq!(out_dst.len() + err_dst.len(), n + m);
    for i in 0..n {
        assert_eq!(out_dst[i], format!("[sp1] out line {}", i));
    }
    for i in 0..m {
        assert_eq!(err_dst[i], format!("[sp1] err line {}", i));
    }
}
