//! The query parameters of the quotation requests, each as the list of name
//! and value that goes into the address.

use vstd::prelude::*;
use crate::codes::Price;
use crate::number::{decimal_string, decimal_text};
use crate::market::{
    BelongClassCode, MarketCode, PeriodCode, ProductTypeCode, ShareClassCode, TargetClassCode,
    TargetExeceptClassCode,
};
use crate::text::bytes_of;

verus! {

/// Whether a pair is a parameter of the given name and value.
pub open spec fn is_pair(pair: (&'static str, String), name: Seq<char>, value: Seq<char>) -> bool {
    pair.0@ == name && pair.1@ == value
}

/// The text of an optional count: its digits, or nothing.
pub open spec fn count_text(count: Option<u32>) -> Seq<char> {
    match count {
        Some(n) => decimal_text(n as nat),
        None => Seq::<char>::empty(),
    }
}

/// The parameters of a daily price lookup.
#[derive(Clone, Debug)]
pub struct DailyPriceParameter {
    /// The market division.
    pub fid_cond_mrkt_div_code: MarketCode,
    /// The code of the instrument.
    pub fid_input_iscd: String,
    /// The period of the series.
    pub fid_period_div_code: PeriodCode,
    /// Zero for adjusted prices, one for prices as they were.
    pub fid_org_adj_prc: u8,
}

impl DailyPriceParameter {
    pub fn new(
        market_code: MarketCode,
        shortcode: String,
        period_code: PeriodCode,
        is_adjust_price: bool,
    ) -> (r: DailyPriceParameter)
        ensures
            r.fid_cond_mrkt_div_code == market_code,
            r.fid_input_iscd == shortcode,
            r.fid_period_div_code == period_code,
            r.fid_org_adj_prc == if is_adjust_price {
                0u8
            } else {
                1u8
            },
    {
        DailyPriceParameter {
            fid_cond_mrkt_div_code: market_code,
            fid_input_iscd: shortcode,
            fid_period_div_code: period_code,
            fid_org_adj_prc: if is_adjust_price {
                0
            } else {
                1
            },
        }
    }

    pub fn into_iter(&self) -> (r: [(&'static str, String); 4])
        ensures
            is_pair(r[0], "FID_COND_MRKT_DIV_CODE"@, self.fid_cond_mrkt_div_code.code_text()),
            is_pair(r[1], "FID_INPUT_ISCD"@, self.fid_input_iscd@),
            is_pair(r[2], "FID_PERIOD_DIV_CODE"@, self.fid_period_div_code.code_text()),
            is_pair(r[3], "FID_ORG_ADJ_PRC"@, decimal_text(self.fid_org_adj_prc as nat)),
    {
        [
            ("FID_COND_MRKT_DIV_CODE", self.fid_cond_mrkt_div_code.to_string()),
            ("FID_INPUT_ISCD", self.fid_input_iscd.clone()),
            ("FID_PERIOD_DIV_CODE", self.fid_period_div_code.to_string()),
            ("FID_ORG_ADJ_PRC", decimal_string(self.fid_org_adj_prc as u64)),
        ]
    }
}

/// The text of an optional price.
pub open spec fn price_text(price: Option<Price>) -> Seq<char> {
    match price {
        Some(p) => decimal_text(p.value() as nat),
        None => Seq::<char>::empty(),
    }
}

fn price_string(price: Option<Price>) -> (r: String)
    ensures
        r@ == price_text(price),
{
    match price {
        Some(p) => p.to_string(),
        None => String::new(),
    }
}

fn count_string(count: Option<u32>) -> (r: String)
    ensures
        r@ == count_text(count),
{
    match count {
        Some(n) => decimal_string(n as u64),
        None => String::new(),
    }
}

/// The parameters of a volume ranking.
#[derive(Clone, Debug)]
pub struct VolumeRankParameter {
    /// The market division; always stocks.
    pub fid_cond_mrkt_div_code: MarketCode,
    /// The screen code; always `20171`.
    pub fid_cond_scr_div_code: String,
    /// `0000` for all instruments, else the code of a sector.
    pub fid_input_iscd: String,
    /// The class of shares.
    pub fid_div_cls_code: ShareClassCode,
    /// What the ranking is ordered by.
    pub fid_blng_cls_code: BelongClassCode,
    /// The margin and credit classes to cover.
    pub fid_trgt_cls_code: TargetClassCode,
    /// The instruments to leave out.
    pub fid_trgt_exls_cls_code: TargetExeceptClassCode,
    /// The lowest price, if any.
    pub fid_input_price_1: Option<Price>,
    /// The highest price, if any.
    pub fid_input_price_2: Option<Price>,
    /// The least volume, if any.
    pub fid_vol_cnt: Option<u32>,
    /// A date; always empty.
    pub fid_input_date_1: String,
}

impl VolumeRankParameter {
    pub fn new(
        fid_input_iscd: String,
        fid_div_cls_code: ShareClassCode,
        fid_blng_cls_code: BelongClassCode,
        fid_trgt_cls_code: TargetClassCode,
        fid_trgt_exls_cls_code: TargetExeceptClassCode,
        fid_input_price_1: Option<Price>,
        fid_input_price_2: Option<Price>,
        fid_vol_cnt: Option<u32>,
    ) -> (r: VolumeRankParameter)
        ensures
            r.fid_cond_mrkt_div_code == MarketCode::Stock,
            r.fid_cond_scr_div_code@ == "20171"@,
            r.fid_input_iscd == fid_input_iscd,
            r.fid_div_cls_code == fid_div_cls_code,
            r.fid_blng_cls_code == fid_blng_cls_code,
            r.fid_trgt_cls_code == fid_trgt_cls_code,
            r.fid_trgt_exls_cls_code == fid_trgt_exls_cls_code,
            r.fid_input_price_1 == fid_input_price_1,
            r.fid_input_price_2 == fid_input_price_2,
            r.fid_vol_cnt == fid_vol_cnt,
            r.fid_input_date_1@ == Seq::<char>::empty(),
    {
        VolumeRankParameter {
            fid_cond_mrkt_div_code: MarketCode::Stock,
            fid_cond_scr_div_code: "20171".to_owned(),
            fid_input_iscd,
            fid_div_cls_code,
            fid_blng_cls_code,
            fid_trgt_cls_code,
            fid_trgt_exls_cls_code,
            fid_input_price_1,
            fid_input_price_2,
            fid_vol_cnt,
            fid_input_date_1: String::new(),
        }
    }

    pub fn into_iter(&self) -> (r: [(&'static str, String); 11])
        ensures
            is_pair(r[0], "FID_COND_MRKT_DIV_CODE"@, self.fid_cond_mrkt_div_code.code_text()),
            is_pair(r[1], "FID_COND_SCR_DIV_CODE"@, self.fid_cond_scr_div_code@),
            is_pair(r[2], "FID_INPUT_ISCD"@, self.fid_input_iscd@),
            is_pair(r[3], "FID_DIV_CLS_CODE"@, self.fid_div_cls_code.code_text()),
            is_pair(r[4], "FID_BLNG_CLS_CODE"@, self.fid_blng_cls_code.code_text()),
            r[5].0@ == "FID_TRGT_CLS_CODE"@,
            bytes_of(r[5].1@) == self.fid_trgt_cls_code.digits(),
            r[6].0@ == "FID_TRGT_EXLS_CLS_CODE"@,
            bytes_of(r[6].1@) == self.fid_trgt_exls_cls_code.digits(),
            is_pair(r[7], "FID_INPUT_PRICE_1"@, price_text(self.fid_input_price_1)),
            is_pair(r[8], "FID_INPUT_PRICE_2"@, price_text(self.fid_input_price_2)),
            is_pair(r[9], "FID_VOL_CNT"@, count_text(self.fid_vol_cnt)),
            is_pair(r[10], "FID_INPUT_DATE_1"@, self.fid_input_date_1@),
    {
        [
            ("FID_COND_MRKT_DIV_CODE", self.fid_cond_mrkt_div_code.to_string()),
            ("FID_COND_SCR_DIV_CODE", self.fid_cond_scr_div_code.clone()),
            ("FID_INPUT_ISCD", self.fid_input_iscd.clone()),
            ("FID_DIV_CLS_CODE", self.fid_div_cls_code.to_string()),
            ("FID_BLNG_CLS_CODE", self.fid_blng_cls_code.to_string()),
            ("FID_TRGT_CLS_CODE", self.fid_trgt_cls_code.to_string()),
            ("FID_TRGT_EXLS_CLS_CODE", self.fid_trgt_exls_cls_code.to_string()),
            ("FID_INPUT_PRICE_1", price_string(self.fid_input_price_1)),
            ("FID_INPUT_PRICE_2", price_string(self.fid_input_price_2)),
            ("FID_VOL_CNT", count_string(self.fid_vol_cnt)),
            ("FID_INPUT_DATE_1", self.fid_input_date_1.clone()),
        ]
    }
}

/// The parameters of a lookup of the watch-list groups of a user.
#[derive(Clone, Debug)]
pub struct GroupListParameter {
    /// The kind of watch list; always `1`.
    pub type_: String,
    /// A classification code; always `00`.
    pub fid_etc_cls_code: String,
    /// The id of the user.
    pub user_id: String,
}

impl GroupListParameter {
    pub fn new(user_id: &str) -> (r: GroupListParameter)
        ensures
            r.type_@ == "1"@,
            r.fid_etc_cls_code@ == "00"@,
            r.user_id@ == user_id@,
    {
        GroupListParameter {
            type_: "1".to_owned(),
            fid_etc_cls_code: "00".to_owned(),
            user_id: user_id.to_owned(),
        }
    }

    pub fn into_iter(&self) -> (r: [(&'static str, String); 3])
        ensures
            is_pair(r[0], "TYPE"@, self.type_@),
            is_pair(r[1], "FID_ETC_CLS_CODE"@, self.fid_etc_cls_code@),
            is_pair(r[2], "USER_ID"@, self.user_id@),
    {
        [
            ("TYPE", self.type_.clone()),
            ("FID_ETC_CLS_CODE", self.fid_etc_cls_code.clone()),
            ("USER_ID", self.user_id.clone()),
        ]
    }
}

/// The parameters of a lookup of the items of a watch-list group.
#[derive(Clone, Debug)]
pub struct GroupItemParameter {
    /// The kind of watch list; always `1`.
    pub type_: String,
    /// The id of the user.
    pub user_id: String,
    /// The rank of the data; empty.
    pub data_rank: String,
    /// The code of the group.
    pub inter_grp_code: String,
    /// The name of the group; empty.
    pub inter_grp_name: String,
    /// The name of the instrument; empty.
    pub hts_kor_isnm: String,
    /// The execution class; empty.
    pub cntg_cls_code: String,
    /// A classification code; always `4`.
    pub fid_etc_cls_code: String,
}

impl GroupItemParameter {
    pub fn new(user_id: &str, inter_grp_code: &str) -> (r: GroupItemParameter)
        ensures
            r.type_@ == "1"@,
            r.user_id@ == user_id@,
            r.data_rank@ == Seq::<char>::empty(),
            r.inter_grp_code@ == inter_grp_code@,
            r.inter_grp_name@ == Seq::<char>::empty(),
            r.hts_kor_isnm@ == Seq::<char>::empty(),
            r.cntg_cls_code@ == Seq::<char>::empty(),
            r.fid_etc_cls_code@ == "4"@,
    {
        GroupItemParameter {
            type_: "1".to_owned(),
            user_id: user_id.to_owned(),
            data_rank: String::new(),
            inter_grp_code: inter_grp_code.to_owned(),
            inter_grp_name: String::new(),
            hts_kor_isnm: String::new(),
            cntg_cls_code: String::new(),
            fid_etc_cls_code: "4".to_owned(),
        }
    }

    pub fn into_iter(&self) -> (r: [(&'static str, String); 8])
        ensures
            is_pair(r[0], "TYPE"@, self.type_@),
            is_pair(r[1], "USER_ID"@, self.user_id@),
            is_pair(r[2], "DATA_RANK"@, self.data_rank@),
            is_pair(r[3], "INTER_GRP_CODE"@, self.inter_grp_code@),
            is_pair(r[4], "INTER_GRP_NAME"@, self.inter_grp_name@),
            is_pair(r[5], "HTS_KOR_ISNM"@, self.hts_kor_isnm@),
            is_pair(r[6], "CNTG_CLS_CODE"@, self.cntg_cls_code@),
            is_pair(r[7], "FID_ETC_CLS_CODE"@, self.fid_etc_cls_code@),
    {
        [
            ("TYPE", self.type_.clone()),
            ("USER_ID", self.user_id.clone()),
            ("DATA_RANK", self.data_rank.clone()),
            ("INTER_GRP_CODE", self.inter_grp_code.clone()),
            ("INTER_GRP_NAME", self.inter_grp_name.clone()),
            ("HTS_KOR_ISNM", self.hts_kor_isnm.clone()),
            ("CNTG_CLS_CODE", self.cntg_cls_code.clone()),
            ("FID_ETC_CLS_CODE", self.fid_etc_cls_code.clone()),
        ]
    }
}

/// The parameters of a lookup of the basic information on an instrument.
#[derive(Clone, Debug)]
pub struct BasicStockInfoParameter {
    /// The type of the product.
    pub prdt_type_cd: ProductTypeCode,
    /// The number of the product: six digits for a stock, a leading `Q` for
    /// an exchange-traded note.
    pub pdno: String,
}

impl BasicStockInfoParameter {
    /// The parameters for the product `pdno` of the type with the code
    /// `prdt_type_cd`; an unknown code counts as that of stocks.
    pub fn new(prdt_type_cd: &str, pdno: &str) -> (r: BasicStockInfoParameter)
        ensures
            r.prdt_type_cd == match ProductTypeCode::decoded(bytes_of(prdt_type_cd@)) {
                Some(code) => code,
                None => ProductTypeCode::Stock,
            },
            r.pdno@ == pdno@,
    {
        let code = match ProductTypeCode::from_str(prdt_type_cd) {
            Ok(code) => code,
            Err(_) => ProductTypeCode::Stock,
        };
        BasicStockInfoParameter { prdt_type_cd: code, pdno: pdno.to_owned() }
    }

    pub fn into_iter(&self) -> (r: [(&'static str, String); 2])
        ensures
            is_pair(r[0], "PRDT_TYPE_CD"@, self.prdt_type_cd.code_text()),
            is_pair(r[1], "PDNO"@, self.pdno@),
    {
        [("PRDT_TYPE_CD", self.prdt_type_cd.to_string()), ("PDNO", self.pdno.clone())]
    }
}

} // verus!
