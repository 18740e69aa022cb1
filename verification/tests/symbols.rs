use ts_analyzer::symbol::Symbol;
use ts_analyzer::type_info::{TsKeywordTypeKind, Type};

#[test]
fn symbol_new_keeps_name_and_type() {
    let symbol = Symbol::new("a".to_string(), Type::KeywordType(TsKeywordTypeKind::Number));
    assert_eq!(symbol.name, "a");
    assert_eq!(symbol.ty, Type::KeywordType(TsKeywordTypeKind::Number));
}
