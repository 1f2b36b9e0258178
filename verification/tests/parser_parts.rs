use mclang::parser::brackets::matching_parens;
use mclang::parser::brackets::Bracket::{Close, Open, Other};
use mclang::parser::macros::template_uses;
use mclang::parser::nbt::{signed_integer, signed_text, ArrayKind};

#[test]
fn parentheses_pair_innermost_first() {
    let kinds = [Open, Other, Open, Close, Close, Close, Open];
    assert_eq!(
        matching_parens(&kinds),
        vec![Some(4), None, Some(3), Some(2), Some(0), None, None]
    );
    assert_eq!(matching_parens(&[]), Vec::<Option<usize>>::new());
    assert_eq!(matching_parens(&[Close, Open]), vec![None, None]);
}

#[test]
fn macro_placeholders_are_listed_in_order() {
    assert_eq!(
        template_uses("say $(name) has $(score_1) and $(name)"),
        Ok(vec!["name".to_string(), "score_1".to_string(), "name".to_string()])
    );
    assert_eq!(template_uses("no placeholders"), Ok(Vec::new()));
    assert_eq!(template_uses("tp $(玩家)"), Ok(vec!["玩家".to_string()]));
}

#[test]
fn macro_placeholder_errors() {
    assert_eq!(template_uses("say $(name"), Err("宏占位符缺少 `)`".to_string()));
    assert_eq!(template_uses("say $()"), Err("无效宏参数名 ``".to_string()));
    assert_eq!(template_uses("say $(a b)"), Err("无效宏参数名 `a b`".to_string()));
}

#[test]
fn array_suffixes_and_ranges() {
    assert!(ArrayKind::Byte.allows('b'));
    assert!(!ArrayKind::Byte.allows('s'));
    assert!(ArrayKind::Int.allows('s'));
    assert!(!ArrayKind::Int.allows('l'));
    assert!(ArrayKind::Long.allows('l'));
    assert_eq!(ArrayKind::Byte.element_range('i'), (-128, 127, "字节元素"));
    assert_eq!(ArrayKind::Int.element_range('i'), (i64::from(i32::MIN), i64::from(i32::MAX), "整数元素"));
    assert_eq!(ArrayKind::Byte.element_range('l'), (i64::MIN, i64::MAX, "长整数元素"));
    assert_eq!(ArrayKind::Long.element_range('s'), (-32768, 32767, "短整数元素"));
    assert_eq!(ArrayKind::Int.prefix(), "I");
    assert_eq!(ArrayKind::Long.label(), "长整数数组");
}

#[test]
fn signed_elements_are_range_checked() {
    assert_eq!(signed_integer(128, true, -128, 127, "字节元素"), Ok(-128));
    assert_eq!(signed_integer(127, false, -128, 127, "字节元素"), Ok(127));
    assert_eq!(
        signed_integer(128, false, -128, 127, "字节元素"),
        Err("字节元素超出 -128 到 127 的范围".to_string())
    );
    assert_eq!(
        signed_integer(5, true, i64::MIN, -10, "x"),
        Err(format!("x超出 {} 到 -10 的范围", i64::MIN))
    );
    assert_eq!(signed_text(i64::MIN), i64::MIN.to_string());
    assert_eq!(signed_text(0), "0");
    assert_eq!(signed_text(-42), "-42");
}
