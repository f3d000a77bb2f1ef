use support_cafe::storage::partition_table_name;

#[test]
fn partition_names() {
    assert_eq!(partition_table_name(0), "support_message_p0");
    assert_eq!(partition_table_name(42), "support_message_p42");
    assert_eq!(partition_table_name(u32::MAX), "support_message_p4294967295");
}

#[test]
fn distinct_slots_have_distinct_partitions() {
    let names: Vec<String> = (0..200u32).map(partition_table_name).collect();
    for i in 0..names.len() {
        for j in (i + 1)..names.len() {
            assert_ne!(names[i], names[j]);
        }
    }
    assert_ne!(partition_table_name(1), partition_table_name(10));
}
