use lua_to_ts::driver::{FileOutcome, TransformFile};
use lua_to_ts::parsing::{model_file, parse_lua_file};
use lua_to_ts::roblox::{Dom, Instance};

#[test]
fn lua_source_that_parses_gives_the_parser_tree() {
    let ast = parse_lua_file("local x = 1").ok().unwrap();
    assert_eq!(full_moon::print(&ast), "local x = 1");
    let other = parse_lua_file("return y").ok().unwrap();
    assert_eq!(full_moon::print(&other), "return y");
}

#[test]
fn lua_source_that_does_not_parse_gives_the_parser_error() {
    match parse_lua_file("local x = ") {
        Err(FileOutcome::ParseFailed(message)) => {
            assert_eq!(message, full_moon::parse("local x = ").err().unwrap().to_string());
            assert!(message.starts_with("error occurred while creating ast"));
        }
        _ => panic!("expected a parse failure"),
    }
}

#[test]
fn a_decoded_model_is_the_file() {
    let dom = Dom { root: Instance { name: "root".to_owned(), class: "DataModel".to_owned(), children: vec![] } };
    assert_eq!(model_file(Ok(dom)), Ok(TransformFile::Model(Dom {
        root: Instance { name: "root".to_owned(), class: "DataModel".to_owned(), children: vec![] },
    })));
}

#[test]
fn a_decoder_error_is_a_parse_failure() {
    let err = rbx_binary::from_reader(&b"not a model"[..]).err().unwrap().to_string();
    assert_eq!(model_file(Err(err.clone())), Err(FileOutcome::ParseFailed(err)));
}
