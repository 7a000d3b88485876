use arma3_wiki::call::{Arg, Call};

#[test]
fn call_from_wiki() {
    assert_eq!(Call::parse("[[addScore]]"), Ok(Call::Nular));
    assert_eq!(
        Call::parse("[[addScore]] foo"),
        Ok(Call::Unary(Arg::Item("foo".to_string())))
    );
    assert_eq!(
        Call::parse("foo [[addScore]] baz"),
        Ok(Call::Binary(
            Arg::Item("foo".to_string()),
            Arg::Item("baz".to_string())
        ))
    );
    assert_eq!(
        Call::parse("foo bar baz qux"),
        Err("Invalid call: foo bar baz qux".to_string())
    );
    assert_eq!(
        Call::parse("[[tvSetPicture]] [idc, path, name]"),
        Ok(Call::Unary(Arg::Array(vec![
            Arg::Item("idc".to_string()),
            Arg::Item("path".to_string()),
            Arg::Item("name".to_string())
        ])))
    );
    assert_eq!(
        Call::parse("control [[tvSetPicture]] [idc, path, name]"),
        Ok(Call::Binary(
            Arg::Item("control".to_string()),
            Arg::Array(vec![
                Arg::Item("idc".to_string()),
                Arg::Item("path".to_string()),
                Arg::Item("name".to_string())
            ])
        ))
    );
    assert_eq!(Call::parse("'''viewDistance'''"), Ok(Call::Nular));
}

#[test]
fn infinite() {
    assert_eq!(
        Call::parse("[[format]] [formatString, var1, var2, ...]"),
        Ok(Call::Unary(Arg::Array(vec![
            Arg::Item("formatString".to_string()),
            Arg::InfiniteItem(Box::new(Arg::Item("varN".to_string()))),
        ])))
    );
    assert_eq!(
        Call::parse("map [[addEditorObject]] [type,[name1,value1,...],class]"),
        Ok(Call::Binary(
            Arg::Item("map".to_string()),
            Arg::Array(vec![
                Arg::Item("type".to_string()),
                Arg::Array(vec![Arg::InfiniteFlat(vec![
                    Arg::Item("nameN".to_string()),
                    Arg::Item("valueN".to_string()),
                ]),]),
                Arg::Item("class".to_string()),
            ])
        ))
    );
    assert_eq!(
        Call::parse("[[createHashMapFromArray]] [[key1, value1], [key2, value2], ...]"),
        Ok(Call::Unary(Arg::Array(vec![Arg::InfiniteFlat(vec![
            Arg::Item("keyN".to_string()),
            Arg::Item("valueN".to_string()),
        ])])))
    );
    assert_eq!(
        Call::parse("[[set3DENMissionAttributes]] [[section1, class1, value1], ...]"),
        Ok(Call::Unary(Arg::Array(vec![Arg::InfiniteFlat(vec![
            Arg::Item("sectionN".to_string()),
            Arg::Item("classN".to_string()),
            Arg::Item("valueN".to_string()),
        ])])))
    );
}

#[test]
fn text_without_a_space_is_nular() {
    assert_eq!(Call::parse("[[x]]]"), Ok(Call::Nular));
    assert_eq!(Call::parse("'''viewDistance'''"), Ok(Call::Nular));
}
