//! Parsing dictionary-style documents: a DDL attribute dictionary and a
//! core dictionary, plus the hand-expanded model machinery.

use cif_chomper::model::iterate_data_block;
use cif_chomper::parser::cif2_file;

const DDL: &str = "#\\#CIF_2.0
data_ddl_dic
_dictionary.title DDL_DIC
_dictionary.class Reference
_dictionary.version 1.0
_dictionary.date 2021-04-22
_description.text 'Attribute definitions for dictionaries'
_name.category_id dictionary
_name.object_id attributes
save_dictionary
_definition.id DICTIONARY
_definition.scope Category
_description.text 'Attributes of the dictionary itself'
save_
";

const DICT: &str = "#\\#CIF_2.0
data_core_dic
_dictionary.title CORE_DIC
_dictionary.class Instance
_dictionary.version 6.0
_description.text 'Core definitions of the exchange format'
_name.category_id core
_name.object_id definitions
save_cell
_definition.id CELL
_definition.scope Category
save_
save_cell.volume
_definition.id '_cell.volume'
_name.category_id cell
_name.object_id volume
save_
";

fn answer() -> u32 {
    42
}

struct StructName {
    x: usize,
}

#[test]
fn test_load_ddl_str() {
    assert!(DDL.len() > 100);
}

#[test]
fn lib_test_load_ddl_str() {
    assert!(DDL.len() > 100);
}

#[test]
fn test_load_ddl_model() {
    let model = cif2_file(DDL.as_bytes()).unwrap();
    println!("{:?}", model.content[0].heading);
    println!("{:?}", model.content[0].content.len());
    assert!(model.content[0].content.len() > 5);
}

#[test]
fn lib_test_load_ddl_model() {
    let model = cif2_file(DDL.as_bytes()).unwrap();
    println!("{:?}", model.content[0].heading);
    println!("{:?}", model.content[0].content.len());
    let content = &model.content;
    assert!(content[0].content.len() > 5);
}

#[test]
fn test_ddl_model_content() {
    let model = cif2_file(DDL.as_bytes()).unwrap();
    let content = &model.content;
    for data_block in content[0..1].iter() {
        let pairs = iterate_data_block(data_block);
        for (name, value) in pairs.iter() {
            println!(
                "content str {:?}, {:?}",
                name.bytes(DDL.as_bytes()),
                value.bytes(DDL.as_bytes())
            );
        }
    }
}

#[test]
fn lib_test_ddl_model_content() {
    let model = cif2_file(DDL.as_bytes()).unwrap();
    let content = &model.content;
    for data_block in content[0..1].iter() {
        let pairs = iterate_data_block(data_block);
        println!("{:?}", pairs.len());
    }
}

#[test]
fn test_dict_model_content() {
    let model = cif2_file(DICT.as_bytes()).unwrap();
    let content = &model.content;
    for data_block in content[0..1].iter() {
        let pairs = iterate_data_block(data_block);
        for (name, value) in pairs.iter() {
            println!(
                "content str {:?}, {:?}",
                name.bytes(DICT.as_bytes()),
                value.bytes(DICT.as_bytes())
            );
        }
    }
}

#[test]
fn it_works() {
    assert_eq!(answer(), 42);
    assert_eq!(StructName { x: 6 }.x, 6);
}
