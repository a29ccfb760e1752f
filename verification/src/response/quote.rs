//! The answers to the quotation requests.

use vstd::prelude::*;
use crate::codes::VsPriceSign;
use crate::market::{ExCode, ExchangeCode, MarketId, SecurityGroupId, StockKindCode};

verus! {

/// The frame of every answer to a quotation request; which of the three
/// outputs is there depends on the request.
#[derive(Clone, Debug)]
pub struct QuoteResponse<A, B, C> {
    /// `0` for success, anything else for failure.
    pub rt_cd: String,
    /// The code of the answer.
    pub msg_cd: String,
    /// The message of the answer.
    pub msg1: String,
    pub output: Option<A>,
    pub output1: Option<B>,
    pub output2: Option<C>,
}

/// The answer to a daily price lookup.
#[derive(Clone, Debug)]
pub struct DailyPriceResponse {
    /// `0` for success, anything else for failure.
    pub rt_cd: String,
    /// The code of the answer.
    pub msg_cd: String,
    /// The message of the answer.
    pub msg1: String,
    /// One entry for each day.
    pub output: Option<Vec<DailyPrice>>,
}

/// The prices of one day.
#[derive(Clone, Debug)]
pub struct DailyPrice {
    /// The business date.
    pub stck_bsop_date: String,
    /// The opening price.
    pub stck_oprc: String,
    /// The highest price.
    pub stck_hgpr: String,
    /// The lowest price.
    pub stck_lwpr: String,
    /// The closing price.
    pub stck_clpr: String,
    /// The volume.
    pub acml_vol: String,
    /// The volume against that of the previous day.
    pub prdy_vrss_vol_rate: String,
    /// The difference from the previous close.
    pub prdy_vrss: String,
    /// How the price stands against the previous close.
    pub prdy_vrss_sign: VsPriceSign,
    /// The difference from the previous close, in percent.
    pub prdy_ctrt: String,
    /// The share of the foreign limit that is used.
    pub hts_frgn_ehrt: String,
    /// The net quantity bought by foreigners.
    pub frgn_ntby_qty: String,
    /// What the price is quoted without.
    pub flng_cls_code: ExCode,
    /// The accumulated split ratio.
    pub acml_prtt_rate: String,
}

/// One line of a volume ranking.
#[derive(Clone, Debug)]
pub struct VolumeRank {
    /// The name of the instrument.
    pub hts_kor_isnm: String,
    /// The short code of the instrument.
    pub mksc_shrn_iscd: String,
    /// The rank.
    pub data_rank: String,
    /// The current price.
    pub stck_prpr: String,
    /// How the price stands against the previous close.
    pub prdy_vrss_sign: VsPriceSign,
    /// The difference from the previous close.
    pub prdy_vrss: String,
    /// The difference from the previous close, in percent.
    pub prdy_ctrt: String,
    /// The volume of the day so far.
    pub acml_vol: String,
    /// The volume of the previous day.
    pub prdy_vol: String,
    /// The number of listed shares.
    pub lstn_stcn: String,
    /// The average volume.
    pub avrg_vol: String,
    /// The price against the close of some days ago, in percent.
    pub n_befr_clpr_vrss_prpr_rate: String,
    /// The growth of the volume.
    pub vol_inrt: String,
    /// The turnover ratio of the volume.
    pub vol_tnrt: String,
    /// The turnover ratio of the volume over some days.
    pub nday_vol_tnrt: String,
    /// The average traded amount.
    pub avrg_tr_pbmn: String,
    /// The turnover ratio of the traded amount.
    pub tr_pbmn_tnrt: String,
    /// The turnover ratio of the traded amount over some days.
    pub nday_tr_pbmn_tnrt: String,
    /// The traded amount of the day so far.
    pub acml_tr_pbmn: String,
}

/// A watch-list group.
#[derive(Clone, Debug)]
pub struct GroupList {
    /// The date.
    pub date: String,
    /// The time of transmission.
    pub tmm_hour: Option<String>,
    /// The rank.
    pub data_rank: String,
    /// The code of the group.
    pub inter_grp_code: String,
    /// The name of the group.
    pub inter_grp_name: String,
    /// The number of items asked for.
    pub ask_cnt: String,
}

/// The group that a list of items belongs to.
#[derive(Clone, Debug)]
pub struct GroupInfo {
    /// The rank.
    pub data_rank: String,
    /// The code of the group.
    pub inter_grp_code: Option<String>,
}

/// An item of a watch-list group.
#[derive(Clone, Debug)]
pub struct GroupItem {
    /// The market division.
    pub fid_mrkt_cls_code: String,
    /// The rank.
    pub data_rank: String,
    /// The code of the exchange.
    pub exch_code: String,
    /// The code of the instrument.
    pub jong_code: String,
    /// The colour code.
    pub color_code: String,
    /// The memo.
    pub memo: String,
    /// The name of the instrument.
    pub hts_kor_isnm: String,
    /// The net quantity bought on the reference date.
    pub fxdt_ntby_qty: String,
    /// The executed price.
    pub cntg_unpr: String,
    /// The execution class.
    pub cntg_cls_code: String,
}

/// The basic information on an instrument.
#[derive(Clone, Debug)]
pub struct BasicStockInfo {
    /// The number of the product.
    pub pdno: String,
    /// The type of the product.
    pub prdt_type_cd: String,
    /// The market.
    pub mket_id_cd: MarketId,
    /// The group of securities.
    pub scty_grp_id_cd: SecurityGroupId,
    /// The exchange.
    pub excg_dvsn_cd: ExchangeCode,
    /// The month and day of settlement of accounts.
    pub setl_mmdd: String,
    /// The number of listed shares.
    pub lstg_stqty: Option<String>,
    /// The listed capital.
    pub lstg_cptl_amt: String,
    /// The capital.
    pub cpta: String,
    /// The par value.
    pub papr: String,
    /// The issue price.
    pub issu_pric: String,
    /// Whether it is in the KOSPI 200.
    pub kospi200_item_yn: String,
    /// The date of listing on the main board.
    pub scts_mket_lstg_dt: String,
    /// The date of delisting from the main board.
    pub scts_mket_lstg_abol_dt: String,
    /// The date of listing on KOSDAQ.
    pub kosdaq_mket_lstg_dt: String,
    /// The date of delisting from KOSDAQ.
    pub kosdaq_mket_lstg_abol_dt: String,
    /// The date of listing on the free board.
    pub frbd_mket_lstg_dt: String,
    /// The date of delisting from the free board.
    pub frbd_mket_lstg_abol_dt: String,
    /// The kind of REIT.
    pub reits_kind_cd: String,
    /// The division of ETF.
    pub etf_dvsn_cd: String,
    /// Whether it is an oil-field fund.
    pub oilf_fund_yn: String,
    /// The large class of the index sector.
    pub idx_bztp_lcls_cd: String,
    /// The middle class of the index sector.
    pub idx_bztp_mcls_cd: String,
    /// The small class of the index sector.
    pub idx_bztp_scls_cd: String,
    /// The kind of share.
    pub stck_kind_cd: StockKindCode,
    /// The opening date of the mutual fund.
    pub mfnd_opng_dt: String,
    /// The closing date of the mutual fund.
    pub mfnd_end_dt: String,
    /// The date the deposit registration was cancelled.
    pub dpsi_erlm_cncl_dt: String,
    /// The creation-unit quantity of the ETF.
    pub etf_cu_qty: String,
    /// The name of the product.
    pub prdt_name: String,
    /// The name of the product, in 120 characters.
    pub prdt_name120: String,
    /// The short name of the product.
    pub prdt_abrv_name: String,
    /// The ISIN.
    pub std_pdno: String,
    /// The English name.
    pub prdt_eng_name: String,
    /// The English name, in 120 characters.
    pub prdt_eng_name120: String,
    /// The short English name.
    pub prdt_eng_abrv_name: String,
    /// Whether it is registered for designated deposit.
    pub dpsi_aptm_erlm_yn: String,
    /// The taxation type of the ETF.
    pub etf_txtn_type_cd: String,
    /// The type of the ETF.
    pub etf_type_cd: String,
    /// The date of delisting.
    pub lstg_abol_dt: String,
    /// Whether new or old shares.
    pub nwst_odst_dvsn_cd: String,
    /// The substitute price.
    pub sbst_pric: String,
    /// The substitute price of this house.
    pub thco_sbst_pric: String,
    /// The date that price changed.
    pub thco_sbst_pric_chng_dt: String,
    /// Whether trading is halted.
    pub tr_stop_yn: String,
    /// Whether it is under administration.
    pub admn_item_yn: String,
    /// The close of the day.
    pub thdt_clpr: String,
    /// The close of the previous day.
    pub bfdy_clpr: String,
    /// The date the close changed.
    pub clpr_chng_dt: String,
    /// The standard industry code.
    pub std_idst_clsf_cd: String,
    /// The name of the standard industry.
    pub std_idst_clsf_cd_name: String,
    /// The name of the large class.
    pub idx_bztp_lcls_cd_name: String,
    /// The name of the middle class.
    pub idx_bztp_mcls_cd_name: String,
    /// The name of the small class.
    pub idx_bztp_scls_cd_name: String,
    /// The OCR number.
    pub ocr_no: String,
    /// Whether it is crowd-funded.
    pub crfd_item_yn: String,
    /// Whether it is an electronic security.
    pub elec_scty_yn: String,
    /// The code of the issuer.
    pub issu_istt_cd: String,
    /// The multiple of the return that the ETF tracks.
    pub etf_chas_erng_rt_dbnb: String,
    /// Whether investors are cautioned.
    pub etf_etn_ivst_heed_item_yn: String,
    /// The division of the stock-loan interest rate.
    pub stln_int_rt_dvsn_cd: String,
    /// The limit for a foreign person, in percent.
    pub frnr_psnl_lmt_rt: String,
    /// The issuer code of the applicant for listing.
    pub lstg_rqsr_issu_istt_cd: String,
    /// The item code of the applicant for listing.
    pub lstg_rqsr_item_cd: String,
    /// The issuer code of the trustee.
    pub trst_istt_issu_istt_cd: String,
}

} // verus!
