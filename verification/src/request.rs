//! The bodies and headers of the requests to the REST service.

use vstd::prelude::*;
use vstd::string::StringExecFns;
use crate::codes::{CorrectionClass, CustomerType, OrderClass, Price, Quantity, TrId};
use crate::number::decimal_text;
use crate::codes::{Direction, Environment};
use crate::market::OrderDivision;
use crate::control::{json_quote, json_quoted};

verus! {

/// The grant type of every credential request.
pub open spec fn grant_type_text() -> Seq<char> {
    "client_credentials"@
}

/// The body of a request for an approval key for streaming.
#[derive(Clone, Debug)]
pub struct ApprovalKeyCreationBody {
    pub grant_type: String,
    pub secretkey: String,
    pub appkey: String,
}

impl ApprovalKeyCreationBody {
    pub fn new(secretkey: String, appkey: String) -> (r: ApprovalKeyCreationBody)
        ensures
            r.grant_type@ == grant_type_text(),
            r.secretkey == secretkey,
            r.appkey == appkey,
    {
        ApprovalKeyCreationBody { grant_type: "client_credentials".to_owned(), secretkey, appkey }
    }
}

/// The body of a request for an access token.
#[derive(Clone, Debug)]
pub struct TokenCreationBody {
    pub grant_type: String,
    pub appsecret: String,
    pub appkey: String,
}

impl TokenCreationBody {
    pub fn new(appsecret: String, appkey: String) -> (r: TokenCreationBody)
        ensures
            r.grant_type@ == grant_type_text(),
            r.appsecret == appsecret,
            r.appkey == appkey,
    {
        TokenCreationBody { grant_type: "client_credentials".to_owned(), appsecret, appkey }
    }
}

/// The body of a request to revoke an access token.
#[derive(Clone, Debug)]
pub struct TokenRevokeBody {
    pub appkey: String,
    pub appsecret: String,
    pub token: String,
}

impl TokenRevokeBody {
    pub fn new(appkey: String, appsecret: String, token: String) -> (r: TokenRevokeBody)
        ensures
            r.appkey == appkey,
            r.appsecret == appsecret,
            r.token == token,
    {
        TokenRevokeBody { appkey, appsecret, token }
    }
}

/// The header of a request for a hash of a body.
#[derive(Clone, Debug)]
pub struct HashKeyRequestHeader {
    pub content_type: String,
    pub appkey: String,
    pub appsecret: String,
}

/// The header of a request that acts for a person.
#[derive(Clone, Debug)]
pub struct RequestHeader {
    pub authorization: String,
    pub appkey: String,
    pub appsecret: String,
    pub tr_id: TrId,
    pub custtype: CustomerType,
}

impl RequestHeader {
    pub fn new(token: String, appkey: String, appsecret: String, tr_id: TrId) -> (r:
        RequestHeader)
        ensures
            r.authorization == token,
            r.appkey == appkey,
            r.appsecret == appsecret,
            r.tr_id == tr_id,
            r.custtype == CustomerType::Personal,
    {
        RequestHeader {
            authorization: token,
            appkey,
            appsecret,
            tr_id,
            custtype: CustomerType::Personal,
        }
    }
}

/// The JSON text of a cash order, given the JSON literals of its free
/// texts.
pub open spec fn order_text(
    cano: Seq<char>,
    acnt_prdt_cd: Seq<char>,
    pdno: Seq<char>,
    ord_dvsn: Seq<char>,
    ord_qty: nat,
    ord_unpr: nat,
) -> Seq<char> {
    "{\"CANO\":"@ + cano + ",\"ACNT_PRDT_CD\":"@ + acnt_prdt_cd + ",\"PDNO\":"@ + pdno
        + ",\"ORD_DVSN\":\""@ + ord_dvsn + "\",\"ORD_QTY\":\""@ + decimal_text(ord_qty)
        + "\", \"ORD_UNPR\":\""@ + decimal_text(ord_unpr) + "\"}"@
}

/// Puts the JSON text of a cash order together from the JSON literals of its
/// free texts.
pub fn assemble_order(
    cano: &str,
    acnt_prdt_cd: &str,
    pdno: &str,
    ord_dvsn: &str,
    ord_qty: Quantity,
    ord_unpr: Price,
) -> (r: String)
    ensures
        r@ == order_text(
            cano@,
            acnt_prdt_cd@,
            pdno@,
            ord_dvsn@,
            ord_qty.value() as nat,
            ord_unpr.value() as nat,
        ),
{
    let mut out: String = "{\"CANO\":".to_owned();
    out.append(cano);
    out.append(",\"ACNT_PRDT_CD\":");
    out.append(acnt_prdt_cd);
    out.append(",\"PDNO\":");
    out.append(pdno);
    out.append(",\"ORD_DVSN\":\"");
    out.append(ord_dvsn);
    out.append("\",\"ORD_QTY\":\"");
    out.append(ord_qty.to_string().as_str());
    out.append("\", \"ORD_UNPR\":\"");
    out.append(ord_unpr.to_string().as_str());
    out.append("\"}");
    out
}

/// The body of a cash order.
#[derive(Clone, Debug)]
pub struct Order {
    /// The first eight digits of the account number.
    pub cano: String,
    /// The last two digits of the account number.
    pub acnt_prdt_cd: String,
    /// The code of the instrument, six digits.
    pub pdno: String,
    /// The kind of the order.
    pub ord_dvsn: OrderClass,
    /// The number of shares.
    pub ord_qty: Quantity,
    /// The price per share; zero for a market order.
    pub ord_unpr: Price,
}

impl Order {
    pub fn new(
        cano: String,
        acnt_prdt_cd: String,
        pdno: String,
        ord_dvsn: OrderClass,
        ord_qty: Quantity,
        ord_unpr: Price,
    ) -> (r: Order)
        ensures
            r.cano == cano,
            r.acnt_prdt_cd == acnt_prdt_cd,
            r.pdno == pdno,
            r.ord_dvsn == ord_dvsn,
            r.ord_qty == ord_qty,
            r.ord_unpr == ord_unpr,
    {
        Order { cano, acnt_prdt_cd, pdno, ord_dvsn, ord_qty, ord_unpr }
    }

    /// The order as the service reads it.
    pub open spec fn json_text(self) -> Seq<char> {
        order_text(
            json_quoted(self.cano@),
            json_quoted(self.acnt_prdt_cd@),
            json_quoted(self.pdno@),
            self.ord_dvsn.code_text(),
            self.ord_qty.value() as nat,
            self.ord_unpr.value() as nat,
        )
    }

    /// The order as JSON text.
    pub fn get_json_string(self) -> (r: String)
        ensures
            r@ == self.json_text(),
    {
        let cano = json_quote(self.cano.as_str());
        let acnt_prdt_cd = json_quote(self.acnt_prdt_cd.as_str());
        let pdno = json_quote(self.pdno.as_str());
        assemble_order(
            cano.as_str(),
            acnt_prdt_cd.as_str(),
            pdno.as_str(),
            self.ord_dvsn.code(),
            self.ord_qty,
            self.ord_unpr,
        )
    }
}

/// The body of a cash order, with the division of the order in place of its
/// kind.
#[derive(Clone, Debug)]
pub struct RequestBody {
    /// The first eight digits of the account number.
    pub cano: String,
    /// The last two digits of the account number.
    pub acnt_prdt_cd: String,
    /// The code of the instrument, six digits.
    pub pdno: String,
    /// The division of the order.
    pub ord_dvsn: OrderDivision,
    /// The number of shares.
    pub ord_qty: Quantity,
    /// The price per share; zero for a market order.
    pub ord_unpr: Price,
}

impl RequestBody {
    pub fn new(
        cano: String,
        acnt_prdt_cd: String,
        pdno: String,
        ord_dvsn: OrderDivision,
        ord_qty: Quantity,
        ord_unpr: Price,
    ) -> (r: RequestBody)
        ensures
            r.cano == cano,
            r.acnt_prdt_cd == acnt_prdt_cd,
            r.pdno == pdno,
            r.ord_dvsn == ord_dvsn,
            r.ord_qty == ord_qty,
            r.ord_unpr == ord_unpr,
    {
        RequestBody { cano, acnt_prdt_cd, pdno, ord_dvsn, ord_qty, ord_unpr }
    }

    /// The order as the service reads it.
    pub open spec fn json_text(self) -> Seq<char> {
        order_text(
            json_quoted(self.cano@),
            json_quoted(self.acnt_prdt_cd@),
            json_quoted(self.pdno@),
            self.ord_dvsn.code_text(),
            self.ord_qty.value() as nat,
            self.ord_unpr.value() as nat,
        )
    }

    /// The order as JSON text.
    pub fn get_json_string(self) -> (r: String)
        ensures
            r@ == self.json_text(),
    {
        let cano = json_quote(self.cano.as_str());
        let acnt_prdt_cd = json_quote(self.acnt_prdt_cd.as_str());
        let pdno = json_quote(self.pdno.as_str());
        assemble_order(
            cano.as_str(),
            acnt_prdt_cd.as_str(),
            pdno.as_str(),
            self.ord_dvsn.code(),
            self.ord_qty,
            self.ord_unpr,
        )
    }
}

/// The text of a yes/no value in a request.
pub open spec fn yes_no_text(yes: bool) -> Seq<char> {
    if yes {
        "Y"@
    } else {
        "N"@
    }
}

/// The JSON text of a correction, given the JSON literals of its free
/// texts.
pub open spec fn correction_text(
    cano: Seq<char>,
    acnt_prdt_cd: Seq<char>,
    krx_fwdg_ord_orgno: Seq<char>,
    orgn_odno: Seq<char>,
    ord_dvsn: OrderClass,
    rvse_cncl_dvsn_cd: CorrectionClass,
    ord_qty: nat,
    ord_unpr: nat,
    qty_all_ord_yn: bool,
) -> Seq<char> {
    "{\"CANO\":"@ + cano + ",\"ACNT_PRDT_CD\":"@ + acnt_prdt_cd + ",\"KRX_FWDG_ORD_ORGNO\": "@
        + krx_fwdg_ord_orgno + ",\"ORGN_ODNO\":"@ + orgn_odno + ",\"ORD_DVSN\":\""@
        + ord_dvsn.code_text() + "\",\"RVSE_CNCL_DVSN_CD\":\""@ + rvse_cncl_dvsn_cd.code_text()
        + "\",\"ORD_QTY\":\""@ + decimal_text(ord_qty) + "\",\"ORD_UNPR\":\""@ + decimal_text(
        ord_unpr,
    ) + "\",\"QTY_ALL_ORD_YN\":\""@ + yes_no_text(qty_all_ord_yn) + "\"}"@
}

/// Puts the JSON text of a correction together from the JSON literals of
/// its free texts.
pub fn assemble_correction(
    cano: &str,
    acnt_prdt_cd: &str,
    krx_fwdg_ord_orgno: &str,
    orgn_odno: &str,
    ord_dvsn: OrderClass,
    rvse_cncl_dvsn_cd: CorrectionClass,
    ord_qty: Quantity,
    ord_unpr: Price,
    qty_all_ord_yn: bool,
) -> (r: String)
    ensures
        r@ == correction_text(
            cano@,
            acnt_prdt_cd@,
            krx_fwdg_ord_orgno@,
            orgn_odno@,
            ord_dvsn,
            rvse_cncl_dvsn_cd,
            ord_qty.value() as nat,
            ord_unpr.value() as nat,
            qty_all_ord_yn,
        ),
{
    let mut out: String = "{\"CANO\":".to_owned();
    out.append(cano);
    out.append(",\"ACNT_PRDT_CD\":");
    out.append(acnt_prdt_cd);
    out.append(",\"KRX_FWDG_ORD_ORGNO\": ");
    out.append(krx_fwdg_ord_orgno);
    out.append(",\"ORGN_ODNO\":");
    out.append(orgn_odno);
    out.append(",\"ORD_DVSN\":\"");
    out.append(ord_dvsn.code());
    out.append("\",\"RVSE_CNCL_DVSN_CD\":\"");
    out.append(rvse_cncl_dvsn_cd.code());
    out.append("\",\"ORD_QTY\":\"");
    out.append(ord_qty.to_string().as_str());
    out.append("\",\"ORD_UNPR\":\"");
    out.append(ord_unpr.to_string().as_str());
    out.append("\",\"QTY_ALL_ORD_YN\":\"");
    out.append(if qty_all_ord_yn {
        "Y"
    } else {
        "N"
    });
    out.append("\"}");
    out
}

/// The body of a correction or cancellation of an order.
#[derive(Clone, Debug)]
pub struct Correction {
    /// The first eight digits of the account number.
    pub cano: String,
    /// The last two digits of the account number.
    pub acnt_prdt_cd: String,
    /// The code of the branch that took the order.
    pub krx_fwdg_ord_orgno: String,
    /// The number of the order that is corrected.
    pub orgn_odno: String,
    /// The kind of the order.
    pub ord_dvsn: OrderClass,
    /// Whether this corrects or cancels.
    pub rvse_cncl_dvsn_cd: CorrectionClass,
    /// The number of shares.
    pub ord_qty: Quantity,
    /// The new price per share; zero for a cancellation.
    pub ord_unpr: Price,
    /// Whether all of what is left of the order is meant.
    pub qty_all_ord_yn: bool,
}

impl Correction {
    pub fn new(
        cano: String,
        acnt_prdt_cd: String,
        krx_fwdg_ord_orgno: String,
        orgn_odno: String,
        ord_dvsn: OrderClass,
        rvse_cncl_dvsn_cd: CorrectionClass,
        ord_qty: Quantity,
        ord_unpr: Price,
        qty_all_ord_yn: bool,
    ) -> (r: Correction)
        ensures
            r.cano == cano,
            r.acnt_prdt_cd == acnt_prdt_cd,
            r.krx_fwdg_ord_orgno == krx_fwdg_ord_orgno,
            r.orgn_odno == orgn_odno,
            r.ord_dvsn == ord_dvsn,
            r.rvse_cncl_dvsn_cd == rvse_cncl_dvsn_cd,
            r.ord_qty == ord_qty,
            r.ord_unpr == ord_unpr,
            r.qty_all_ord_yn == qty_all_ord_yn,
    {
        Correction {
            cano,
            acnt_prdt_cd,
            krx_fwdg_ord_orgno,
            orgn_odno,
            ord_dvsn,
            rvse_cncl_dvsn_cd,
            ord_qty,
            ord_unpr,
            qty_all_ord_yn,
        }
    }

    /// The correction as the service reads it.
    pub open spec fn json_text(self) -> Seq<char> {
        correction_text(
            json_quoted(self.cano@),
            json_quoted(self.acnt_prdt_cd@),
            json_quoted(self.krx_fwdg_ord_orgno@),
            json_quoted(self.orgn_odno@),
            self.ord_dvsn,
            self.rvse_cncl_dvsn_cd,
            self.ord_qty.value() as nat,
            self.ord_unpr.value() as nat,
            self.qty_all_ord_yn,
        )
    }

    /// The correction as JSON text.
    pub fn get_json_string(self) -> (r: String)
        ensures
            r@ == self.json_text(),
    {
        let cano = json_quote(self.cano.as_str());
        let acnt_prdt_cd = json_quote(self.acnt_prdt_cd.as_str());
        let krx_fwdg_ord_orgno = json_quote(self.krx_fwdg_ord_orgno.as_str());
        let orgn_odno = json_quote(self.orgn_odno.as_str());
        assemble_correction(
            cano.as_str(),
            acnt_prdt_cd.as_str(),
            krx_fwdg_ord_orgno.as_str(),
            orgn_odno.as_str(),
            self.ord_dvsn,
            self.rvse_cncl_dvsn_cd,
            self.ord_qty,
            self.ord_unpr,
            self.qty_all_ord_yn,
        )
    }
}

/// The transaction id of a cash order in an environment.
pub open spec fn order_id(environment: Environment, direction: Direction) -> TrId {
    match (environment, direction) {
        (Environment::Real, Direction::Bid) => TrId::RealStockCashBidOrder,
        (Environment::Real, Direction::Ask) => TrId::RealStockCashAskOrder,
        (Environment::Virtual, Direction::Bid) => TrId::VirtualStockCashBidOrder,
        (Environment::Virtual, Direction::Ask) => TrId::VirtualStockCashAskOrder,
    }
}

/// The transaction id under which a cash order is placed.
pub fn order_tr_id(environment: Environment, direction: Direction) -> (r: TrId)
    ensures
        r == order_id(environment, direction),
{
    match environment {
        Environment::Real => match direction {
            Direction::Bid => TrId::RealStockCashBidOrder,
            Direction::Ask => TrId::RealStockCashAskOrder,
        },
        Environment::Virtual => match direction {
            Direction::Bid => TrId::VirtualStockCashBidOrder,
            Direction::Ask => TrId::VirtualStockCashAskOrder,
        },
    }
}

/// The transaction id under which an order is corrected or cancelled.
pub fn correction_tr_id(environment: Environment) -> (r: TrId)
    ensures
        r == match environment {
            Environment::Real => TrId::RealStockCorrection,
            Environment::Virtual => TrId::VirtualStockCorrection,
        },
{
    match environment {
        Environment::Real => TrId::RealStockCorrection,
        Environment::Virtual => TrId::VirtualStockCorrection,
    }
}

/// The address of the REST service in an environment.
pub open spec fn rest_endpoint_text(environment: Environment) -> Seq<char> {
    match environment {
        Environment::Real => "https://openapi.koreainvestment.com:9443"@,
        Environment::Virtual => "https://openapivts.koreainvestment.com:29443"@,
    }
}

/// The address of the REST service in an environment.
pub fn rest_endpoint(environment: Environment) -> (r: &'static str)
    ensures
        r@ == rest_endpoint_text(environment),
{
    match environment {
        Environment::Real => "https://openapi.koreainvestment.com:9443",
        Environment::Virtual => "https://openapivts.koreainvestment.com:29443",
    }
}

/// The address of a resource of the REST service: the address of the service
/// followed by the path of the resource.
pub fn rest_url(environment: Environment, path: &str) -> (r: String)
    ensures
        r@ == rest_endpoint_text(environment) + path@,
{
    let mut url: String = rest_endpoint(environment).to_owned();
    url.append(path);
    url
}

/// The value of the authorization header for an access token.
pub fn bearer(token: &str) -> (r: String)
    ensures
        r@ == "Bearer "@ + token@,
{
    let mut value: String = "Bearer ".to_owned();
    value.append(token);
    value
}

} // verus!
