use haveno_basic_bootstrap::utils::storage::persistance_manager::{
    file_name, type_to_filename, Format,
};

#[test]
fn type_names_become_file_names() {
    assert_eq!(type_to_filename("io::haveno::protobuffer::Filter"), "io.haveno.protobuffer.Filter");
    assert_eq!(type_to_filename("alloc::vec::Vec<u8>"), "alloc.vec.Vec_u8_");
    assert_eq!(type_to_filename("a:b"), "a:b");
    assert_eq!(type_to_filename(":::"), ".:");
    assert_eq!(type_to_filename("::::"), "..");
    assert_eq!(type_to_filename(""), "");
    assert_eq!(type_to_filename("Höhe<ß>"), "Höhe_ß_");
    assert_eq!(
        type_to_filename("a::b<c::d>"),
        "a::b<c::d>".replace("::", ".").replace('<', "_").replace('>', "_")
    );
}

#[test]
fn file_names_depend_on_the_form() {
    assert_eq!(file_name("a::Filter", Format::Json), "a.Filter.json");
    assert_eq!(file_name("a::Filter", Format::Binary), "a.Filter");
}
