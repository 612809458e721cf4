use centaur::RegisterPack;

#[test]
fn owned_mapping_and_access() {
    let mut values = RegisterPack::new([String::from("a"), String::from("bb")]);
    values[0].push('x');
    values.as_mut_array()[1].push('y');
    assert_eq!(values.as_array()[0], "ax");
    let result = values.zip_map(RegisterPack::new([1, 2]), |s, n| s.len() + n);
    assert_eq!(result.map(|n| n * 2).into_array(), [6, 10]);
}

#[test]
fn empty_pack_invokes_no_callback() {
    let empty = RegisterPack::<String, 0>::new([]);
    let mapped: RegisterPack<usize, 0> = empty.map(|_| panic!("empty"));
    let result: RegisterPack<(), 0> =
        mapped.zip_map(RegisterPack::<u8, 0>::new([]), |_, _| panic!("empty"));
    assert_eq!(result.into_array(), []);
}

#[test]
fn new_and_borrowing_expose_the_same_values() {
    let pack = RegisterPack::new([3u32, 5, 7]);
    assert_eq!(pack[0], 3);
    assert_eq!(pack[2], 7);
    assert_eq!(pack.as_array(), &[3, 5, 7]);
    assert_eq!(pack.0, [3, 5, 7]);
    assert_eq!(pack.into_array(), [3, 5, 7]);
}

#[test]
fn index_mut_changes_one_register() {
    let mut pack = RegisterPack::new([1i64, 2, 3, 4]);
    pack[2] = -9;
    assert_eq!(pack.into_array(), [1, 2, -9, 4]);
}

#[test]
fn as_mut_array_writes_back() {
    let mut pack = RegisterPack::new([0u8; 4]);
    pack.as_mut_array()[3] = 200;
    pack.as_mut_array()[0] = 1;
    assert_eq!(pack.as_array(), &[1, 0, 0, 200]);
}

#[test]
fn map_applies_by_index_in_order() {
    let pack = RegisterPack::new([10u32, 20, 30, 40]);
    let mut seen = Vec::new();
    let mapped = pack.map(|v| {
        seen.push(v);
        v + 1
    });
    assert_eq!(mapped.into_array(), [11, 21, 31, 41]);
    assert_eq!(seen, vec![10, 20, 30, 40]);
}

#[test]
fn zip_map_pairs_corresponding_registers_in_order() {
    let left = RegisterPack::new([String::from("x"), String::from("yy"), String::from("zzz")]);
    let right = RegisterPack::new([7usize, 8, 9]);
    let mut order = Vec::new();
    let out = left.zip_map(right, |s, n| {
        order.push(n);
        s.len() * 100 + n
    });
    assert_eq!(out.into_array(), [107, 208, 309]);
    assert_eq!(order, vec![7, 8, 9]);
}

#[test]
fn map_moves_values_without_clone() {
    struct Token(u8);
    let pack = RegisterPack::new([Token(1), Token(2)]);
    let out = pack.map(|t| t.0 * 3);
    assert_eq!(out.into_array(), [3, 6]);
}

#[test]
fn empty_pack_keeps_no_values() {
    let empty = RegisterPack::<u64, 0>::new([]);
    assert_eq!(empty.as_array().len(), 0);
    let mapped = empty.map(|v| v + 1);
    assert_eq!(mapped.into_array(), [0u64; 0]);
}
