use plotpy::util::{array2list, generate_uid, write_array, write_arrays};

#[test]
fn array2list_works() {
    let values: Vec<String> = [1.0, 2.0, 3.0].iter().map(|v| format!("{}", v)).collect();
    let results = array2list(&values);
    assert_eq!(results, "['1','2','3']");
}

#[test]
fn array2list_handles_empty_input() {
    let values: Vec<String> = Vec::new();
    assert_eq!(array2list(&values), "[]");
}

#[test]
fn array2list_handles_single_value() {
    let values = vec!["blue".to_string()];
    assert_eq!(array2list(&values), "['blue']");
}

#[test]
fn generate_uid_works() {
    let buffer = String::new();
    assert_eq!(generate_uid(&buffer, "x"), "x_0");
}

#[test]
fn generate_uid_uses_buffer_length() {
    let buffer = "0123456789abc".to_string();
    assert_eq!(generate_uid(&buffer, "key"), "key_13");
}

#[test]
fn generate_uid_counts_bytes_not_characters() {
    // One character, two bytes under UTF-8.
    let buffer = "\u{e9}".to_string();
    assert_eq!(buffer.len(), 2);
    assert_eq!(generate_uid(&buffer, "x"), "x_2");
}

#[test]
fn write_array_works() {
    let x = [1.0, 2.0, 3.0, 4.0, 5.0];
    let values: Vec<String> = x.iter().map(|v| format!("{:.15}", v)).collect();
    let mut buffer = String::new();
    let uid = write_array(&mut buffer, "x", &values);
    assert_eq!(uid, "x_0");
    assert_eq!(buffer, "x_0=np.array([1.000000000000000,2.000000000000000,3.000000000000000,4.000000000000000,5.000000000000000,],dtype=float)\n");
}

#[test]
fn write_arrays_works() {
    let x = [1.0, 2.0, 3.0, 4.0, 5.0];
    let y = [1.0, 4.0, 9.0, 16.0, 25.0];
    let values_x: Vec<String> = x.iter().map(|v| format!("{:.15}", v)).collect();
    let values_y: Vec<String> = y.iter().map(|v| format!("{:.15}", v)).collect();
    let mut buffer = String::new();
    let (uid_x, uid_y) = write_arrays(&mut buffer, "x", "y", &values_x, &values_y);
    assert_eq!(uid_x, "x_0");
    assert_eq!(uid_y, "y_119");
    assert_eq!(buffer, "x_0=np.array([1.000000000000000,2.000000000000000,3.000000000000000,4.000000000000000,5.000000000000000,],dtype=float)\ny_119=np.array([1.000000000000000,4.000000000000000,9.000000000000000,16.000000000000000,25.000000000000000,],dtype=float)\n");
}
