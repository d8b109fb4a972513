use oct_classifier::labels::{class_name, classes, CLASSES, TOTAL_CLASSES};

#[test]
fn label_table_has_nine_codes_in_fixed_order() {
    let expected = ["ARMD", "CNV", "CSR", "DME", "DR", "DRUSEN", "GC", "MH", "NORMAL"];
    assert_eq!(TOTAL_CLASSES, 9);
    assert_eq!(CLASSES, expected);
    let all = classes();
    assert_eq!(all.len(), 9);
    for (index, code) in expected.iter().enumerate() {
        assert_eq!(class_name(index), *code);
        assert_eq!(all[index], *code);
    }
}

#[test]
fn label_table_is_the_same_on_every_call() {
    assert_eq!(classes(), classes());
    assert_eq!(class_name(8), "NORMAL");
    assert_eq!(class_name(0), "ARMD");
}
