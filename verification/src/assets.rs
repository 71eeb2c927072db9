//! The screen templates that the tasks look for, each named by its file.

use vstd::prelude::*;

verus! {

/// A template image; the platform layer holds the image itself.
#[derive(Clone, Copy, Debug, PartialEq, Eq, Structural)]
pub enum TemplateId {
    Fuwenka,
    Jinu1,
    Jinu2,
    Jinu3,
    Weijinu,
    Maichongaoyi,
    Ditu1,
    Guanbi,
    Ditu,
    Yingxionggu,
    Jiaruyingxionggu,
    Yingxionggu10ci,
    Queding,
    Shi,
    Fou,
    Dianjichakan,
    Yingxionggumenpiao,
    Goumai1,
    Mashanggoumai1,
    Cha,
    Fanhuizhucheng,
    Zhuangbei,
    Saichangchengji,
    Jinruyouxi,
    Jinruyouxi2,
    Denglu,
    Paopao,
}

/// The file each template was loaded from.
pub open spec fn spec_file_name(t: TemplateId) -> Seq<char> {
    match t {
        TemplateId::Fuwenka => "fuwenka.png"@,
        TemplateId::Jinu1 => "jinu1.png"@,
        TemplateId::Jinu2 => "jinu2.png"@,
        TemplateId::Jinu3 => "jinu3.png"@,
        TemplateId::Weijinu => "weijinu.png"@,
        TemplateId::Maichongaoyi => "maichongaoyi.png"@,
        TemplateId::Ditu1 => "ditu1.png"@,
        TemplateId::Guanbi => "guanbi.png"@,
        TemplateId::Ditu => "ditu.jpg"@,
        TemplateId::Yingxionggu => "yingxionggu.jpg"@,
        TemplateId::Jiaruyingxionggu => "jiaruyingxionggu.jpg"@,
        TemplateId::Yingxionggu10ci => "yingxionggu10ci.png"@,
        TemplateId::Queding => "queding.jpg"@,
        TemplateId::Shi => "shi.jpg"@,
        TemplateId::Fou => "fou.jpg"@,
        TemplateId::Dianjichakan => "dianjichakan.jpg"@,
        TemplateId::Yingxionggumenpiao => "yingxionggumenpiao.jpg"@,
        TemplateId::Goumai1 => "goumai1.jpg"@,
        TemplateId::Mashanggoumai1 => "mashanggoumai1.jpg"@,
        TemplateId::Cha => "cha.jpg"@,
        TemplateId::Fanhuizhucheng => "fanhuizhucheng.jpg"@,
        TemplateId::Zhuangbei => "zhuangbei.jpg"@,
        TemplateId::Saichangchengji => "saichangchengji.jpg"@,
        TemplateId::Jinruyouxi => "jinruyouxi.jpg"@,
        TemplateId::Jinruyouxi2 => "jinruyouxi2.jpg"@,
        TemplateId::Denglu => "denglu.jpg"@,
        TemplateId::Paopao => "paopao.jpg"@,
    }
}

/// Every template, in the order in which they are listed.
pub open spec fn all_templates() -> Seq<TemplateId> {
    seq![
        TemplateId::Fuwenka,
        TemplateId::Jinu1,
        TemplateId::Jinu2,
        TemplateId::Jinu3,
        TemplateId::Weijinu,
        TemplateId::Maichongaoyi,
        TemplateId::Ditu1,
        TemplateId::Guanbi,
        TemplateId::Ditu,
        TemplateId::Yingxionggu,
        TemplateId::Jiaruyingxionggu,
        TemplateId::Yingxionggu10ci,
        TemplateId::Queding,
        TemplateId::Shi,
        TemplateId::Fou,
        TemplateId::Dianjichakan,
        TemplateId::Yingxionggumenpiao,
        TemplateId::Goumai1,
        TemplateId::Mashanggoumai1,
        TemplateId::Cha,
        TemplateId::Fanhuizhucheng,
        TemplateId::Zhuangbei,
        TemplateId::Saichangchengji,
        TemplateId::Jinruyouxi,
        TemplateId::Jinruyouxi2,
        TemplateId::Denglu,
        TemplateId::Paopao,
    ]
}

impl TemplateId {
    /// The file this template was loaded from.
    pub fn file_name(self) -> (res: &'static str)
        ensures
            res@ == spec_file_name(self),
    {
        match self {
            TemplateId::Fuwenka => "fuwenka.png",
            TemplateId::Jinu1 => "jinu1.png",
            TemplateId::Jinu2 => "jinu2.png",
            TemplateId::Jinu3 => "jinu3.png",
            TemplateId::Weijinu => "weijinu.png",
            TemplateId::Maichongaoyi => "maichongaoyi.png",
            TemplateId::Ditu1 => "ditu1.png",
            TemplateId::Guanbi => "guanbi.png",
            TemplateId::Ditu => "ditu.jpg",
            TemplateId::Yingxionggu => "yingxionggu.jpg",
            TemplateId::Jiaruyingxionggu => "jiaruyingxionggu.jpg",
            TemplateId::Yingxionggu10ci => "yingxionggu10ci.png",
            TemplateId::Queding => "queding.jpg",
            TemplateId::Shi => "shi.jpg",
            TemplateId::Fou => "fou.jpg",
            TemplateId::Dianjichakan => "dianjichakan.jpg",
            TemplateId::Yingxionggumenpiao => "yingxionggumenpiao.jpg",
            TemplateId::Goumai1 => "goumai1.jpg",
            TemplateId::Mashanggoumai1 => "mashanggoumai1.jpg",
            TemplateId::Cha => "cha.jpg",
            TemplateId::Fanhuizhucheng => "fanhuizhucheng.jpg",
            TemplateId::Zhuangbei => "zhuangbei.jpg",
            TemplateId::Saichangchengji => "saichangchengji.jpg",
            TemplateId::Jinruyouxi => "jinruyouxi.jpg",
            TemplateId::Jinruyouxi2 => "jinruyouxi2.jpg",
            TemplateId::Denglu => "denglu.jpg",
            TemplateId::Paopao => "paopao.jpg",
        }
    }
}

/// Every template, in the order in which they are listed.
pub fn all() -> (res: Vec<TemplateId>)
    ensures
        res@ == all_templates(),
{
    let mut v: Vec<TemplateId> = Vec::new();
    v.push(TemplateId::Fuwenka);
    v.push(TemplateId::Jinu1);
    v.push(TemplateId::Jinu2);
    v.push(TemplateId::Jinu3);
    v.push(TemplateId::Weijinu);
    v.push(TemplateId::Maichongaoyi);
    v.push(TemplateId::Ditu1);
    v.push(TemplateId::Guanbi);
    v.push(TemplateId::Ditu);
    v.push(TemplateId::Yingxionggu);
    v.push(TemplateId::Jiaruyingxionggu);
    v.push(TemplateId::Yingxionggu10ci);
    v.push(TemplateId::Queding);
    v.push(TemplateId::Shi);
    v.push(TemplateId::Fou);
    v.push(TemplateId::Dianjichakan);
    v.push(TemplateId::Yingxionggumenpiao);
    v.push(TemplateId::Goumai1);
    v.push(TemplateId::Mashanggoumai1);
    v.push(TemplateId::Cha);
    v.push(TemplateId::Fanhuizhucheng);
    v.push(TemplateId::Zhuangbei);
    v.push(TemplateId::Saichangchengji);
    v.push(TemplateId::Jinruyouxi);
    v.push(TemplateId::Jinruyouxi2);
    v.push(TemplateId::Denglu);
    v.push(TemplateId::Paopao);
    assert(v@ =~= all_templates());
    v
}

} // verus!
