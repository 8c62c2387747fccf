use base::util::rand_string;

#[test]
fn test_rand_string() {
    let password = rand_string(10);

    assert_eq!(10, password.len());
}

#[test]
fn rand_string_of_length_zero_is_empty() {
    assert_eq!(rand_string(0), "");
}
