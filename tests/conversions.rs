use rust_strings::{
    os_string_to_path_buf, os_string_to_string, path_buf_to_os_string, path_buf_to_string,
    string_to_os_string, string_to_path_buf, NativePath, NativeString,
};

#[test]
fn convert_pathbuf_to_string() {
    let pb: NativePath = NativePath::from_bytes("a PathBuf".as_bytes().to_vec());
    let s: String = path_buf_to_string(&pb);
    assert_eq!(s, "a PathBuf");
}

#[test]
fn convert_string_to_pathbuf() {
    let s: String = "test2 string".to_string();
    let pb1: NativePath = string_to_path_buf(&s);
    let pb2: NativePath = NativePath::from_bytes("test2 string".as_bytes().to_vec());
    assert_eq!(pb1, pb2);
}

#[test]
fn convert_pathbuf_to_osstring() {
    let pb: NativePath = NativePath::from_bytes("test3 string".as_bytes().to_vec());
    let oss1: NativeString = path_buf_to_os_string(&pb);
    let oss2: NativeString = NativeString::from_bytes("test3 string".as_bytes().to_vec());
    assert_eq!(oss1, oss2);
}

#[test]
fn convert_osstring_to_pathbuf() {
    let oss: NativeString = NativeString::from_bytes("test4 string".as_bytes().to_vec());
    let pb1: NativePath = os_string_to_path_buf(&oss);
    let pb2: NativePath = NativePath::from_bytes("test4 string".as_bytes().to_vec());
    assert_eq!(pb1, pb2);
}

#[test]
fn convert_osstring_to_string() {
    let oss: NativeString = NativeString::from_bytes("test5 string".as_bytes().to_vec());
    let str: String = os_string_to_string(&oss);
    assert_eq!(str, "test5 string".to_string());
}

#[test]
fn convert_string_to_osstring() {
    let str: String = String::from("test6 string");
    let oss1: NativeString = string_to_os_string(&str);
    let oss2: NativeString = NativeString::from_bytes("test6 string".as_bytes().to_vec());
    assert_eq!(oss1, oss2);
}
